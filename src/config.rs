use vstd::prelude::*;

use crate::toml_doc::{
    field, new_table, parse_error_message, parse_table, parsed_fields, pretty_text, put_string,
    table_fields, to_pretty,
};

verus! {

/// The sender's identity and credentials.
pub struct UserConfig {
    name: Option<String>,
    email: String,
    pwd: String,
}

/// Text shown for an absent display name.
pub open spec fn absent_name() -> Seq<char> {
    "None"@
}

impl UserConfig {
    /// The display name, if any.
    pub closed spec fn name_spec(&self) -> Option<Seq<char>> {
        match self.name {
            Some(n) => Some(n@),
            None => None,
        }
    }

    /// The sender address, also the login name at the relay.
    pub closed spec fn email_spec(&self) -> Seq<char> {
        self.email@
    }

    /// The credential used to log in at the relay.
    pub closed spec fn pwd_spec(&self) -> Seq<char> {
        self.pwd@
    }

    pub fn new(name: Option<String>, email: String, pwd: String) -> (r: Self)
        ensures
            r.name_spec() == (match name {
                Some(n) => Some(n@),
                None => None::<Seq<char>>,
            }),
            r.email_spec() == email@,
            r.pwd_spec() == pwd@,
    {
        Self { email, pwd, name }
    }

    pub fn name(&self) -> (r: Option<&String>)
        ensures
            r is Some <==> self.name_spec() is Some,
            r is Some ==> r->Some_0@ == self.name_spec()->Some_0,
    {
        self.name.as_ref()
    }

    pub fn email(&self) -> (r: &str)
        ensures
            r@ == self.email_spec(),
    {
        self.email.as_str()
    }

    pub fn pwd(&self) -> (r: &str)
        ensures
            r@ == self.pwd_spec(),
    {
        self.pwd.as_str()
    }

    /// One line naming the sender: `Sender[<name>-<email>]`, with `None` for
    /// an absent name. The password never appears in it.
    pub fn describe(&self) -> (r: String)
        ensures
            r@ == "Sender["@ + (match self.name_spec() {
                Some(n) => n,
                None => absent_name(),
            }) + "-"@ + self.email_spec() + "]"@,
    {
        let mut r = String::from_str("Sender[");
        match self.name.as_ref() {
            Some(n) => r.append(n.as_str()),
            None => r.append("None"),
        }
        r.append("-");
        r.append(self.email.as_str());
        r.append("]");
        r
    }
}

/// The placeholder display name written on first run.
pub open spec fn default_name() -> Seq<char> {
    "tnicl242"@
}

/// The placeholder sender address written on first run.
pub open spec fn default_email() -> Seq<char> {
    "default_email"@
}

/// The placeholder credential written on first run.
pub open spec fn default_pwd() -> Seq<char> {
    "default_pwd"@
}

impl Default for UserConfig {
    fn default() -> (r: Self)
        ensures
            r.name_spec() == Some(default_name()),
            r.email_spec() == default_email(),
            r.pwd_spec() == default_pwd(),
    {
        Self {
            name: Some(String::from_str("tnicl242")),
            email: String::from_str("default_email"),
            pwd: String::from_str("default_pwd"),
        }
    }
}

/// What a configuration holds, as plain values: name, email, password.
pub type ConfigModel = (Option<Seq<char>>, Seq<char>, Seq<char>);

impl UserConfig {
    pub open spec fn model(&self) -> ConfigModel {
        (self.name_spec(), self.email_spec(), self.pwd_spec())
    }
}

/// The model of the placeholder configuration.
pub open spec fn default_model() -> ConfigModel {
    (Some(default_name()), default_email(), default_pwd())
}

/// The configuration that a document's top-level fields describe: `email`
/// and `pwd` must be present as strings; `name` may be absent, and is a string
/// where present. Other fields are ignored.
pub open spec fn schema(fields: Map<Seq<char>, Option<Seq<char>>>) -> Option<ConfigModel> {
    if fields.contains_key("email"@) && fields["email"@] is Some && fields.contains_key("pwd"@)
        && fields["pwd"@] is Some && (fields.contains_key("name"@) ==> fields["name"@] is Some) {
        Some(
            (
                if fields.contains_key("name"@) {
                    fields["name"@]
                } else {
                    None
                },
                fields["email"@]->Some_0,
                fields["pwd"@]->Some_0,
            ),
        )
    } else {
        None
    }
}

/// The fields written for a configuration; an absent name is left out.
pub open spec fn fields_of(m: ConfigModel) -> Map<Seq<char>, Option<Seq<char>>> {
    let base = map!["email"@ => Some(m.1), "pwd"@ => Some(m.2)];
    match m.0 {
        Some(n) => base.insert("name"@, Some(n)),
        None => base,
    }
}

/// The configuration that a text describes, if it is a TOML document that
/// meets the schema.
pub open spec fn config_of_text(text: Seq<char>) -> Option<ConfigModel> {
    match parsed_fields(text) {
        Some(fields) => schema(fields),
        None => None,
    }
}

/// Reads a configuration out of a parsed document.
pub fn config_from_table(t: &toml::Table) -> (r: Result<UserConfig, String>)
    ensures
        r is Ok <==> schema(table_fields(*t)) is Some,
        r is Ok ==> Some(r->Ok_0.model()) == schema(table_fields(*t)),
{
    let email = match field(t, "email") {
        Some(Some(s)) => s,
        Some(None) => return Err(String::from_str("invalid type for `email`, expected a string")),
        None => return Err(String::from_str("missing field `email`")),
    };
    let pwd = match field(t, "pwd") {
        Some(Some(s)) => s,
        Some(None) => return Err(String::from_str("invalid type for `pwd`, expected a string")),
        None => return Err(String::from_str("missing field `pwd`")),
    };
    let name = match field(t, "name") {
        Some(Some(s)) => Some(s),
        Some(None) => return Err(String::from_str("invalid type for `name`, expected a string")),
        None => None,
    };
    Ok(UserConfig::new(name, email, pwd))
}

/// Reads a configuration out of the text of a configuration file. The error
/// says why the text was refused.
pub fn parse_config(text: &str) -> (r: Result<UserConfig, String>)
    ensures
        r is Ok <==> config_of_text(text@) is Some,
        r is Ok ==> Some(r->Ok_0.model()) == config_of_text(text@),
{
    match parse_table(text) {
        Ok(t) => config_from_table(&t),
        Err(e) => Err(parse_error_message(&e)),
    }
}

/// The table written for a configuration.
pub fn config_table(c: &UserConfig) -> (r: toml::Table)
    ensures
        table_fields(r) == fields_of(c.model()),
{
    let mut t = new_table();
    put_string(&mut t, "email", c.email.as_str());
    put_string(&mut t, "pwd", c.pwd.as_str());
    match c.name.as_ref() {
        Some(n) => put_string(&mut t, "name", n.as_str()),
        None => {},
    }
    proof {
        let m = c.model();
        assert(table_fields(t) =~= fields_of(m));
    }
    t
}

/// The text of the placeholder configuration written on first run.
pub fn default_text() -> (r: String)
    ensures
        r@ == pretty_text(fields_of(default_model())),
{
    let c = UserConfig::default();
    let t = config_table(&c);
    proof {
        reveal_strlit("email");
        reveal_strlit("pwd");
        reveal_strlit("name");
        assert("email"@.len() != "pwd"@.len());
        assert("email"@.len() != "name"@.len());
        assert("pwd"@.len() != "name"@.len());
    }
    match to_pretty(&t) {
        Ok(s) => s,
        Err(_) => {
            proof {
                assert(false);
            }
            String::new()
        },
    }
}

/// What was found at the configuration path.
pub enum ConfigRead {
    /// No file is there.
    Absent,
    /// A file is there but could not be read as text; the reason.
    Unreadable(String),
    /// The file's text.
    Text(String),
}

/// What loading a configuration file comes to.
pub enum LoadStep {
    /// The file holds a valid configuration.
    Loaded(UserConfig),
    /// No file is there: write this placeholder text to it, and report that
    /// the configuration was bootstrapped.
    WriteDefault(String),
    /// The file is there but does not hold a valid configuration; it is left
    /// as it is.
    Invalid(String),
    /// The file is there but could not be read; it is left as it is.
    Unreadable(String),
}

/// Decides what loading a configuration file comes to, given what was found
/// at its path. Only an absent file leads to a write.
pub fn plan_load(found: &ConfigRead) -> (r: LoadStep)
    ensures
        *found is Absent <==> r is WriteDefault,
        r is WriteDefault ==> r->WriteDefault_0@ == pretty_text(fields_of(default_model())),
        *found is Unreadable ==> r is Unreadable && r->Unreadable_0@ == found->Unreadable_0@,
        *found is Text ==> (r is Loaded <==> config_of_text(found->Text_0@) is Some),
        *found is Text ==> (r is Loaded || r is Invalid),
        *found is Text && r is Loaded ==> Some(r->Loaded_0.model()) == config_of_text(
            found->Text_0@,
        ),
{
    match found {
        ConfigRead::Absent => LoadStep::WriteDefault(default_text()),
        ConfigRead::Unreadable(e) => LoadStep::Unreadable(e.clone()),
        ConfigRead::Text(text) => match parse_config(text.as_str()) {
            Ok(c) => LoadStep::Loaded(c),
            Err(e) => LoadStep::Invalid(e),
        },
    }
}

/// The fields written for a configuration read back as that configuration.
pub proof fn lemma_fields_round_trip(m: ConfigModel)
    ensures
        schema(fields_of(m)) == Some(m),
{
    reveal_strlit("email");
    reveal_strlit("pwd");
    reveal_strlit("name");
    assert("email"@.len() != "pwd"@.len());
    assert("email"@.len() != "name"@.len());
    assert("pwd"@.len() != "name"@.len());
    assert("email"@ != "pwd"@);
    assert("email"@ != "name"@);
    assert("pwd"@ != "name"@);
}

/// A text whose fields are those written for the placeholder loads as the
/// placeholder configuration.
pub proof fn lemma_default_reloads(text: Seq<char>)
    requires
        parsed_fields(text) == Some(fields_of(default_model())),
    ensures
        config_of_text(text) == Some(default_model()),
{
    lemma_fields_round_trip(default_model());
}

} // verus!
