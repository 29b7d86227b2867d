use vstd::prelude::*;
use vstd::string::*;

verus! {

#[verifier::external_type_specification]
#[verifier::external_body]
pub struct ExOffsetDateTime(time::OffsetDateTime);

/// Relies on time::OffsetDateTime::format with the RFC 3339 description; `None` where
/// the moment cannot be written in that form.
#[verifier::external_body]
fn rfc3339(t: time::OffsetDateTime) -> (r: Option<String>) {
    t.format(&time::format_description::well_known::Rfc3339).ok()
}

/// A character of a timestamp as it is written in a file name: colons and plus signs
/// become `*`, hyphens become `_`.
pub open spec fn slug_char(c: char) -> char {
    if c == ':' || c == '+' {
        '*'
    } else if c == '-' {
        '_'
    } else {
        c
    }
}

/// A timestamp as it is written in a file name.
pub open spec fn slug_text(s: Seq<char>) -> Seq<char> {
    s.map_values(|c: char| slug_char(c))
}

/// Writes a timestamp in the form used in file names.
pub fn slug_of(s: &str) -> (r: String)
    ensures
        r@ == slug_text(s@),
{
    let n = s.unicode_len();
    let mut r = String::new();
    let mut i: usize = 0;
    while i < n
        invariant
            n == s@.len(),
            i <= n,
            r@ == slug_text(s@.take(i as int)),
        decreases n - i,
    {
        let c = s.get_char(i);
        let ghost before = r@;
        if c == ':' || c == '+' {
            r.append("*");
            proof {
                reveal_strlit("*");
            }
        } else if c == '-' {
            r.append("_");
            proof {
                reveal_strlit("_");
            }
        } else {
            r.append(s.substring_char(i, i + 1));
            assert(s@.subrange(i as int, i + 1) =~= seq![c]);
        }
        assert(r@ =~= before.push(slug_char(c)));
        assert(slug_text(s@.take(i + 1)) =~= slug_text(s@.take(i as int)).push(slug_char(c)));
        i = i + 1;
    }
    assert(s@.take(n as int) =~= s@);
    r
}

/// The moment `t` in RFC 3339 form, written as file names take it; `None` where the
/// moment cannot be written in that form.
pub fn slug_at(t: time::OffsetDateTime) -> (r: Option<String>)
    ensures
        r matches Some(s) ==> forall|i: int| 0 <= i < s@.len() ==> s@[i] != ':' && s@[i] != '+' && s@[i] != '-',
{
    match rfc3339(t) {
        Some(text) => Some(slug_of(text.as_str())),
        None => None,
    }
}

/// The scratch path where a candidate for the file named `file_name` is kept, stamped
/// with `slug`.
pub open spec fn temp_path_text(slug: Seq<char>, file_name: Seq<char>) -> Seq<char> {
    "/tmp/"@ + slug + "_"@ + file_name
}

pub fn temp_rs_path(slug: &str, file_name: &str) -> (r: String)
    ensures
        r@ == temp_path_text(slug@, file_name@),
{
    let mut r = String::from_str("/tmp/");
    r.append(slug);
    r.append("_");
    r.append(file_name);
    r
}

} // verus!
