//! Message envelopes: the structured content of one Text frame, carrying a
//! declared file type, a MIME type and base64 data that may be prefixed with
//! a data-URI header before the first comma.

use vstd::prelude::*;
use vstd::string::StrSliceExecFns;

verus! {

/// The structured content of one Text frame.
pub struct IncomingImage {
    /// The declared file type of the payload.
    pub file_type: String,
    /// The MIME type that routes the payload.
    pub mime: String,
    /// Base64 data, optionally behind a data-URI header ending at the first
    /// comma.
    pub data: String,
}

/// Whether any character of `s` is a comma.
pub open spec fn has_comma(s: Seq<char>) -> bool {
    exists|i: int| 0 <= i < s.len() && s[i] == ','
}

/// The index of the first comma of `s`; meaningful only when one exists.
pub open spec fn first_comma(s: Seq<char>) -> int
    decreases s.len(),
{
    if s.len() == 0 {
        0
    } else if s[0] == ',' {
        0
    } else {
        1 + first_comma(s.drop_first())
    }
}

/// The base64 payload carried by `s`: the part after the first comma when a
/// data-URI header is present, the whole string otherwise.
pub open spec fn payload_of(s: Seq<char>) -> Seq<char> {
    if has_comma(s) {
        s.subrange(first_comma(s) + 1, s.len() as int)
    } else {
        s
    }
}

/// The first comma is exactly the first index holding a comma.
proof fn lemma_first_comma_at(s: Seq<char>, i: int)
    requires
        0 <= i < s.len(),
        s[i] == ',',
        forall|j: int| 0 <= j < i ==> s[j] != ',',
    ensures
        first_comma(s) == i,
    decreases s.len(),
{
    if s[0] == ',' {
        assert(i == 0);
    } else {
        let t = s.drop_first();
        assert(forall|j: int| 0 <= j < i - 1 ==> t[j] == s[j + 1] && t[j] != ',');
        lemma_first_comma_at(t, i - 1);
    }
}

/// The index of the first comma of `s`, or nothing when `s` has none.
fn find_first_comma(s: &str) -> (r: Option<usize>)
    ensures
        match r {
            Some(i) => i < s@.len() && s@[i as int] == ',' && has_comma(s@) && first_comma(s@)
                == i as int,
            None => !has_comma(s@),
        },
{
    let n = s.unicode_len();
    let mut i: usize = 0;
    while i < n
        invariant
            n == s@.len(),
            i <= n,
            forall|j: int| 0 <= j < i ==> s@[j] != ',',
        decreases n - i,
    {
        let c = s.get_char(i);
        if c == ',' {
            proof {
                lemma_first_comma_at(s@, i as int);
            }
            return Some(i);
        }
        i = i + 1;
    }
    None
}

impl IncomingImage {
    /// The payload with any data-URI header stripped: the substring after the
    /// first comma when one is present, the whole data string otherwise.
    pub fn base64_data(&self) -> (r: &str)
        ensures
            r@ == payload_of(self.data@),
    {
        match find_first_comma(self.data.as_str()) {
            Some(i) => {
                let n = self.data.as_str().unicode_len();
                self.data.as_str().substring_char(i + 1, n)
            },
            None => self.data.as_str(),
        }
    }
}

/// What the JSON parser yields for one Text frame: the `type`, `mime` and
/// `data` string fields of the envelope object, or nothing when the text is
/// not a JSON object carrying all three as strings. A function of the input
/// characters alone.
pub uninterp spec fn parsed_envelope(s: Seq<char>) -> Option<(Seq<char>, Seq<char>, Seq<char>)>;

/// Relies on serde_json::from_str, Value::get and Value::as_str: parsing the
/// text as JSON and reading the `type`, `mime` and `data` string fields of
/// the resulting object, all determined by the input text alone.
#[verifier::external_body]
pub(crate) fn parse_envelope(s: &str) -> (r: Option<IncomingImage>)
    ensures
        match r {
            Some(env) => parsed_envelope(s@) == Some((env.file_type@, env.mime@, env.data@)),
            None => parsed_envelope(s@) is None,
        },
{
    let v: serde_json::Value = serde_json::from_str(s).ok()?;
    let file_type = v.get("type")?.as_str()?.to_string();
    let mime = v.get("mime")?.as_str()?.to_string();
    let data = v.get("data")?.as_str()?.to_string();
    Some(IncomingImage { file_type, mime, data })
}

/// Stripping a data-URI header is exact and loses nothing: for any header
/// free of commas, the payload of `header + "," + b64` is `b64` itself, and a
/// bare string without a comma is its own payload.
pub proof fn lemma_payload_round_trip(header: Seq<char>, b64: Seq<char>)
    requires
        !has_comma(header),
    ensures
        payload_of(header + seq![','] + b64) == b64,
        payload_of(header) == header,
{
    let s = header + seq![','] + b64;
    let h = header.len() as int;
    assert(s[h] == ',');
    assert(forall|j: int| 0 <= j < h ==> s[j] == header[j] && s[j] != ',');
    lemma_first_comma_at(s, h);
    assert(s.subrange(h + 1, s.len() as int) =~= b64);
}

} // verus!
