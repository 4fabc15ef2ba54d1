use mail_dispatch::config::{plan_load, ConfigRead, LoadStep, UserConfig};
use mail_dispatch::dispatch::{
    collect_outcomes, mailbox_string, prepare_batch, session_params, BatchError, FileRead, Outcome,
    Report, RELAY_HOST, RELAY_PORT,
};

fn config() -> UserConfig {
    UserConfig::new(None, "a@b.com".to_string(), "x".to_string())
}

fn addrs(list: &[&str]) -> Vec<String> {
    list.iter().map(|s| s.to_string()).collect()
}

fn bytes() -> FileRead {
    FileRead::Bytes(b"%PDF-1.4 data".to_vec())
}

#[test]
fn mailbox_text_is_labelled() {
    assert_eq!(mailbox_string("TNICL_242", "a@b.com"), "TNICL_242 <a@b.com>");
    assert_eq!(mailbox_string("You", "c@d.com"), "You <c@d.com>");
}

#[test]
fn session_uses_sender_credentials() {
    let p = session_params(&config());
    assert_eq!(p.host, RELAY_HOST);
    assert_eq!(p.host, "smtp.qq.com");
    assert_eq!(p.port, RELAY_PORT);
    assert_eq!(p.port, 465);
    assert_eq!(p.username, "a@b.com");
    assert_eq!(p.secret, "x");
}

#[test]
fn missing_attachment_fails_whole_batch() {
    let r = prepare_batch(&config(), "report.pdf", &FileRead::Missing, &addrs(&["c@d.com", "e@f.com"]));
    assert!(matches!(r, Err(BatchError::AttachmentNotFound)));
}

#[test]
fn unreadable_attachment_fails_whole_batch() {
    let r = prepare_batch(
        &config(),
        "report.pdf",
        &FileRead::Unreadable("denied".to_string()),
        &addrs(&["c@d.com"]),
    );
    assert!(matches!(r, Err(BatchError::AttachmentUnreadable(e)) if e == "denied"));
}

#[test]
fn path_without_base_name_fails_whole_batch() {
    let r = prepare_batch(&config(), "/", &bytes(), &addrs(&["c@d.com"]));
    assert!(matches!(r, Err(BatchError::NoFileName)));
}

#[test]
fn attachment_takes_base_name_of_path() {
    let jobs = match prepare_batch(&config(), "dir/sub/report.pdf", &bytes(), &addrs(&["c@d.com"])) {
        Ok(j) => j,
        Err(_) => panic!("batch must be prepared"),
    };
    assert_eq!(jobs.len(), 1);
    assert_eq!(jobs[0].attachment_name, "report.pdf");
}

#[test]
fn bad_recipient_only_fails_its_own_letter() {
    let jobs = match prepare_batch(&config(), "report.pdf", &bytes(), &addrs(&["c@d.com", "not an address", "e@f.com"])) {
        Ok(j) => j,
        Err(_) => panic!("batch must be prepared"),
    };
    assert_eq!(jobs.len(), 3);
    assert!(jobs[0].letter.is_ok());
    assert!(jobs[1].letter.is_err());
    assert!(jobs[2].letter.is_ok());
    assert_eq!(jobs[1].recipient, "not an address");
}

#[test]
fn bad_sender_fails_every_letter() {
    let c = UserConfig::new(None, "default_email".to_string(), "x".to_string());
    let jobs = match prepare_batch(&c, "report.pdf", &bytes(), &addrs(&["c@d.com", "e@f.com"])) {
        Ok(j) => j,
        Err(_) => panic!("batch must be prepared"),
    };
    assert!(jobs.iter().all(|j| j.letter.is_err()));
}

#[test]
fn one_refused_send_is_isolated() {
    let recipients = addrs(&["a@x.com", "b@x.com", "c@x.com"]);
    let reports = vec![Report::Sent, Report::Refused("auth rejected".to_string()), Report::Sent];
    let out = collect_outcomes(&recipients, reports);
    assert_eq!(out.len(), 3);
    assert!(matches!(&out[0], Outcome::Delivered(r) if r == "a@x.com"));
    assert!(matches!(&out[1], Outcome::Failed(r, d) if r == "b@x.com" && d == "auth rejected"));
    assert!(matches!(&out[2], Outcome::Delivered(r) if r == "c@x.com"));
}

#[test]
fn every_recipient_gets_an_outcome() {
    let recipients = addrs(&["a@x.com", "b@x.com", "c@x.com", "d@x.com", "e@x.com"]);
    let reports = vec![
        Report::Refused("network".to_string()),
        Report::Lost,
        Report::Sent,
        Report::Refused("relay".to_string()),
        Report::Lost,
    ];
    let out = collect_outcomes(&recipients, reports);
    assert_eq!(out.len(), 5);
    for (o, r) in out.iter().zip(recipients.iter()) {
        assert_eq!(o.recipient(), r);
    }
    assert_eq!(out.iter().filter(|o| o.is_delivered()).count(), 1);
    assert!(matches!(&out[1], Outcome::Failed(_, d) if d == "the send task ended without a result"));
}

#[test]
fn empty_batch_gives_no_outcomes() {
    let jobs = match prepare_batch(&config(), "report.pdf", &bytes(), &Vec::new()) {
        Ok(j) => j,
        Err(_) => panic!("batch must be prepared"),
    };
    assert!(jobs.is_empty());
    assert!(collect_outcomes(&Vec::new(), Vec::new()).is_empty());
}

#[test]
fn bootstrap_edit_and_send_scenario() {
    assert!(matches!(plan_load(&ConfigRead::Absent), LoadStep::WriteDefault(_)));
    let c = match plan_load(&ConfigRead::Text("email = \"a@b.com\"\npwd = \"x\"\n".to_string())) {
        LoadStep::Loaded(c) => c,
        _ => panic!("the edited file must load"),
    };
    let recipients = addrs(&["c@d.com", "e@f.com"]);
    let jobs = match prepare_batch(&c, "report.pdf", &bytes(), &recipients) {
        Ok(j) => j,
        Err(_) => panic!("batch must be prepared"),
    };
    assert_eq!(jobs.len(), 2);
    for j in &jobs {
        assert_eq!(j.attachment_name, "report.pdf");
        assert_eq!(j.from, "TNICL_242 <a@b.com>");
        assert_eq!(j.subject, "TJU_TNICL_PL_DATA");
        assert_eq!(j.content_type, "application/pdf");
        assert_eq!(j.body, b"%PDF-1.4 data".to_vec());
        assert!(j.letter.is_ok());
    }
    assert_eq!(jobs[0].to, "You <c@d.com>");
    assert_eq!(jobs[1].to, "You <e@f.com>");
    let text = String::from_utf8(jobs[0].letter.as_ref().unwrap().formatted()).unwrap();
    assert!(text.contains("report.pdf"));
    assert!(text.contains("c@d.com"));
    let reports: Vec<Report> = jobs.iter().map(|_| Report::Sent).collect();
    let out = collect_outcomes(&recipients, reports);
    assert_eq!(out.len(), 2);
    assert!(matches!(&out[0], Outcome::Delivered(r) if r == "c@d.com"));
    assert!(matches!(&out[1], Outcome::Delivered(r) if r == "e@f.com"));
}
