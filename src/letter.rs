//! The parts of `lettre` and of `std::path` that message construction relies on.
use vstd::prelude::*;

verus! {

#[verifier::external_type_specification]
#[verifier::external_body]
pub struct ExMailbox(lettre::message::Mailbox);

#[verifier::external_type_specification]
#[verifier::external_body]
pub struct ExAddressError(lettre::address::AddressError);

#[verifier::external_type_specification]
#[verifier::external_body]
pub struct ExContentType(lettre::message::header::ContentType);

#[verifier::external_type_specification]
#[verifier::external_body]
pub struct ExContentTypeErr(lettre::message::header::ContentTypeErr);

#[verifier::external_type_specification]
#[verifier::external_body]
pub struct ExSinglePart(lettre::message::SinglePart);

#[verifier::external_type_specification]
#[verifier::external_body]
pub struct ExMessage(lettre::Message);

#[verifier::external_type_specification]
#[verifier::external_body]
pub struct ExEmailError(lettre::error::Error);

/// Relies on `ContentType`'s derived `Clone`: a copy of the header value.
pub assume_specification[ <lettre::message::header::ContentType as Clone>::clone ](
    c: &lettre::message::header::ContentType,
) -> lettre::message::header::ContentType;

/// Whether a text reads as a mailbox (`Name <user@domain>` or a bare address).
pub uninterp spec fn mailbox_parses(text: Seq<char>) -> bool;

/// Whether a text reads as a MIME content type.
pub uninterp spec fn content_type_parses(text: Seq<char>) -> bool;

/// The last component of a path, where it has one that is a normal name.
pub uninterp spec fn base_name(path: Seq<char>) -> Option<Seq<char>>;

/// Relies on `Mailbox`'s `FromStr` impl: the result depends on the text alone.
#[verifier::external_body]
pub(crate) fn parse_mailbox(text: &str) -> (r: Result<lettre::message::Mailbox, lettre::address::AddressError>)
    ensures
        r is Ok <==> mailbox_parses(text@),
{
    text.parse::<lettre::message::Mailbox>()
}

/// Relies on `AddressError`'s `Display` impl: the reason an address was refused.
#[verifier::external_body]
pub(crate) fn address_error_message(e: &lettre::address::AddressError) -> (r: String) {
    e.to_string()
}

/// Relies on `ContentType::parse`: the result depends on the text alone.
#[verifier::external_body]
pub(crate) fn parse_content_type(text: &str) -> (r: Result<lettre::message::header::ContentType, lettre::message::header::ContentTypeErr>)
    ensures
        r is Ok <==> content_type_parses(text@),
{
    lettre::message::header::ContentType::parse(text)
}

/// Relies on `ContentTypeErr`'s `Display` impl: the reason a content type was refused.
#[verifier::external_body]
pub(crate) fn content_type_error_message(e: &lettre::message::header::ContentTypeErr) -> (r: String) {
    e.to_string()
}

/// Relies on `Attachment::new` and `Attachment::body`: one attachment part
/// with the given file name, bytes and content type.
#[verifier::external_body]
pub(crate) fn attachment_part(file_name: String, body: Vec<u8>, content_type: lettre::message::header::ContentType) -> (r: lettre::message::SinglePart) {
    lettre::message::Attachment::new(file_name).body(body, content_type)
}

/// Relies on `Message::builder` with `from`, `to`, `subject` and `singlepart`:
/// a message of one part. The builder stamps the current date on it. With
/// one sender and one recipient the build cannot fail.
#[verifier::external_body]
pub(crate) fn compose_message(
    from: lettre::message::Mailbox,
    to: lettre::message::Mailbox,
    subject: &str,
    part: lettre::message::SinglePart,
) -> (r: Result<lettre::Message, lettre::error::Error>)
    ensures
        r is Ok,
{
    lettre::Message::builder().from(from).to(to).subject(subject).singlepart(part)
}

/// Relies on `std::path::Path::file_name`, read as UTF-8: the base name of a path.
#[verifier::external_body]
pub(crate) fn file_name_of(path: &str) -> (r: Option<String>)
    ensures
        r is Some <==> base_name(path@) is Some,
        r is Some ==> r->Some_0@ == base_name(path@)->Some_0,
{
    std::path::Path::new(path).file_name().and_then(|n| n.to_str()).map(|s| s.to_string())
}

} // verus!
