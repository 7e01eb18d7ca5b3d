//! The key-value text form of a document's header.

use crate::document::{Created, CreationInfo, Creator, Document, LicenseListVersion, SpdxVersion};
use crate::paths::opt_string_view;
use crate::text::{append_chars, string_of};
use vstd::prelude::*;

verus! {

/// The decimal digit of `n` (below 10).
pub open spec fn digit(n: nat) -> char {
    seq!['0', '1', '2', '3', '4', '5', '6', '7', '8', '9'][n as int]
}

/// `n` in decimal, without leading zeros.
pub open spec fn decimal(n: nat) -> Seq<char>
    decreases n,
{
    if n < 10 {
        seq![digit(n)]
    } else {
        decimal(n / 10) + seq![digit(n % 10)]
    }
}

/// `SPDX-<major>.<minor>`.
pub open spec fn version_text(v: SpdxVersion) -> Seq<char> {
    "SPDX-"@ + decimal(v.major as nat) + "."@ + decimal(v.minor as nat)
}

/// `<major>.<minor>`.
pub open spec fn license_list_text(v: LicenseListVersion) -> Seq<char> {
    decimal(v.major as nat) + "."@ + decimal(v.minor as nat)
}

/// `name`, followed by ` (<email>)` where there is an e-mail address.
pub open spec fn named_text(name: Seq<char>, email: Option<String>) -> Seq<char> {
    match email {
        Some(e) => name + " ("@ + e@ + ")"@,
        None => name,
    }
}

/// The text of a creator: `Person: `, `Organization: ` or `Tool: `, then its
/// name (and e-mail address).
pub open spec fn creator_text(c: Creator) -> Seq<char> {
    match c {
        Creator::Person { name, email } => "Person: "@ + named_text(name@, email),
        Creator::Organization { name, email } => "Organization: "@ + named_text(name@, email),
        Creator::Tool { name } => "Tool: "@ + name@,
    }
}

/// The line `<key><value>` with its line break.
pub open spec fn line(key: Seq<char>, value: Seq<char>) -> Seq<char> {
    key + value + "\n"@
}

/// A `Creator: ` line for each of `cs`, in order.
pub open spec fn creator_lines(cs: Seq<Creator>) -> Seq<char>
    decreases cs.len(),
{
    if cs.len() == 0 {
        Seq::empty()
    } else {
        creator_lines(cs.drop_last()) + line("Creator: "@, creator_text(cs.last()))
    }
}

/// The key-value header of `doc`, created at the time written `created`.
pub open spec fn header_text(doc: Document, created: Seq<char>) -> Seq<char> {
    let info = doc.creation_info;
    line("SPDXVersion: "@, version_text(doc.spdx_version)) + line("DataLicense: "@, "CC0-1.0"@)
        + line("SPDXID: "@, "SPDXRef-DOCUMENT"@) + line(
        "DocumentName: "@,
        doc.document_name.0@,
    ) + line("DocumentNamespace: "@, doc.document_namespace@) + match info.license_list_version {
        Some(v) => line("LicenseListVersion: "@, license_list_text(v)),
        None => Seq::empty(),
    } + creator_lines(info.creators@) + line("Created: "@, created) + match info.comment {
        Some(c) => line("CreatorComment: "@, c@),
        None => Seq::empty(),
    } + match doc.document_comment {
        Some(c) => line("DocumentComment: "@, c.0@),
        None => Seq::empty(),
    }
}

fn push_decimal(out: &mut Vec<char>, n: u32)
    ensures
        final(out)@ == old(out)@ + decimal(n as nat),
    decreases n,
{
    if n >= 10 {
        push_decimal(out, n / 10);
    }
    let d = n % 10;
    let c = if d == 0 {
        '0'
    } else if d == 1 {
        '1'
    } else if d == 2 {
        '2'
    } else if d == 3 {
        '3'
    } else if d == 4 {
        '4'
    } else if d == 5 {
        '5'
    } else if d == 6 {
        '6'
    } else if d == 7 {
        '7'
    } else if d == 8 {
        '8'
    } else {
        '9'
    };
    assert(c == digit((n % 10) as nat));
    out.push(c);
    if n >= 10 {
        assert(out@ =~= old(out)@ + decimal(n as nat));
    } else {
        assert(out@ =~= old(out)@ + decimal(n as nat));
    }
}

fn push_named(out: &mut Vec<char>, name: &String, email: &Option<String>)
    ensures
        final(out)@ == old(out)@ + named_text(name@, *email),
{
    append_chars(out, name.as_str());
    match email {
        Some(e) => {
            append_chars(out, " (");
            append_chars(out, e.as_str());
            append_chars(out, ")");
            assert(out@ =~= old(out)@ + named_text(name@, *email));
        },
        None => {},
    }
}

fn push_creator(out: &mut Vec<char>, c: &Creator)
    ensures
        final(out)@ == old(out)@ + line("Creator: "@, creator_text(*c)),
{
    append_chars(out, "Creator: ");
    let ghost mid = out@;
    match c {
        Creator::Person { name, email } => {
            append_chars(out, "Person: ");
            push_named(out, name, email);
        },
        Creator::Organization { name, email } => {
            append_chars(out, "Organization: ");
            push_named(out, name, email);
        },
        Creator::Tool { name } => {
            append_chars(out, "Tool: ");
            append_chars(out, name.as_str());
        },
    }
    assert(out@ =~= mid + creator_text(*c));
    append_chars(out, "\n");
    assert(out@ =~= old(out)@ + line("Creator: "@, creator_text(*c)));
}

fn push_line(out: &mut Vec<char>, key: &str, value: &str)
    ensures
        final(out)@ == old(out)@ + line(key@, value@),
{
    append_chars(out, key);
    append_chars(out, value);
    append_chars(out, "\n");
    assert(out@ =~= old(out)@ + line(key@, value@));
}

/// The key-value header of `doc`, created at the time written `created`.
pub fn key_value_text(doc: &Document, created: &str) -> (r: String)
    ensures
        r@ == header_text(*doc, created@),
{
    let mut out: Vec<char> = Vec::new();
    let info: &CreationInfo = &doc.creation_info;
    append_chars(&mut out, "SPDXVersion: ");
    append_chars(&mut out, "SPDX-");
    push_decimal(&mut out, doc.spdx_version.major);
    append_chars(&mut out, ".");
    push_decimal(&mut out, doc.spdx_version.minor);
    append_chars(&mut out, "\n");
    assert(out@ =~= line("SPDXVersion: "@, version_text(doc.spdx_version)));
    push_line(&mut out, "DataLicense: ", "CC0-1.0");
    push_line(&mut out, "SPDXID: ", "SPDXRef-DOCUMENT");
    push_line(&mut out, "DocumentName: ", doc.document_name.0.as_str());
    push_line(&mut out, "DocumentNamespace: ", doc.document_namespace.as_str());
    let ghost head = out@;
    match &info.license_list_version {
        Some(v) => {
            append_chars(&mut out, "LicenseListVersion: ");
            push_decimal(&mut out, v.major);
            append_chars(&mut out, ".");
            push_decimal(&mut out, v.minor);
            append_chars(&mut out, "\n");
            assert(out@ =~= head + line("LicenseListVersion: "@, license_list_text(*v)));
        },
        None => {
            assert(out@ =~= head + Seq::<char>::empty());
        },
    }
    let ghost before_creators = out@;
    let mut i: usize = 0;
    while i < info.creators.len()
        invariant
            i <= info.creators.len(),
            out@ == before_creators + creator_lines(info.creators@.subrange(0, i as int)),
        decreases info.creators.len() - i,
    {
        push_creator(&mut out, &info.creators[i]);
        assert(info.creators@.subrange(0, i as int + 1).drop_last() =~= info.creators@.subrange(0, i as int));
        assert(out@ =~= before_creators + creator_lines(info.creators@.subrange(0, i as int + 1)));
        i = i + 1;
    }
    assert(info.creators@.subrange(0, i as int) =~= info.creators@);
    push_line(&mut out, "Created: ", created);
    let ghost mid = out@;
    match &info.comment {
        Some(c) => push_line(&mut out, "CreatorComment: ", c.as_str()),
        None => assert(out@ =~= mid + Seq::<char>::empty()),
    }
    let ghost tail = out@;
    match &doc.document_comment {
        Some(c) => push_line(&mut out, "DocumentComment: ", c.0.as_str()),
        None => assert(out@ =~= tail + Seq::<char>::empty()),
    }
    assert(out@ =~= header_text(*doc, created@));
    string_of(&out)
}

/// The moment `unix_seconds` (seconds since the Unix epoch, UTC) written
/// after the `time` format description `description`, or none where the
/// moment is out of range or the description is not one.
pub uninterp spec fn timestamp_of(unix_seconds: int, description: Seq<char>) -> Option<Seq<char>>;

/// Relies on `time::format_description::parse`,
/// `time::OffsetDateTime::from_unix_timestamp` and `OffsetDateTime::format`:
/// the moment written after the description, or none where either fails.
#[verifier::external_body]
fn format_timestamp(unix_seconds: i64, description: &str) -> (r: Option<String>)
    ensures
        opt_string_view(r) == timestamp_of(unix_seconds as int, description@),
{
    let items = time::format_description::parse(description).ok()?;
    time::OffsetDateTime::from_unix_timestamp(unix_seconds).ok()?.format(&items).ok()
}

/// How a creation time is written: ISO 8601, UTC.
pub open spec fn created_format() -> Seq<char> {
    "[year]-[month]-[day]T[hour]:[minute]:[second]Z"@
}

impl Created {
    /// This moment as ISO 8601 in UTC (`2022-03-01T12:00:00Z`), or none
    /// where it is out of the representable range.
    pub fn text(&self) -> (r: Option<String>)
        ensures
            opt_string_view(r) == timestamp_of(self.unix_seconds as int, created_format()),
    {
        format_timestamp(self.unix_seconds, "[year]-[month]-[day]T[hour]:[minute]:[second]Z")
    }
}

/// The key-value header of `doc`, or none where its creation time cannot be
/// written.
pub fn write(doc: &Document) -> (r: Option<String>)
    ensures
        match timestamp_of(doc.creation_info.created.unix_seconds as int, created_format()) {
            None => r is None,
            Some(t) => r is Some && r->0@ == header_text(*doc, t),
        },
{
    match doc.creation_info.created.text() {
        None => None,
        Some(t) => Some(key_value_text(doc, t.as_str())),
    }
}

impl Creator {
    /// The text of this creator: `Person: <name> (<email>)`,
    /// `Organization: <name>` or `Tool: <name>`.
    pub fn text(&self) -> (r: String)
        ensures
            r@ == creator_text(*self),
    {
        let mut out: Vec<char> = Vec::new();
        match self {
            Creator::Person { name, email } => {
                append_chars(&mut out, "Person: ");
                push_named(&mut out, name, email);
            },
            Creator::Organization { name, email } => {
                append_chars(&mut out, "Organization: ");
                push_named(&mut out, name, email);
            },
            Creator::Tool { name } => {
                append_chars(&mut out, "Tool: ");
                append_chars(&mut out, name.as_str());
            },
        }
        assert(out@ =~= creator_text(*self));
        string_of(&out)
    }
}

} // verus!
