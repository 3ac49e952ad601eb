use vstd::prelude::*;
use vstd::string::StringExecFns;

verus! {

/// The JSON string literal that serde_json writes for a string: quotes and
/// escapes included.
pub uninterp spec fn json_string_of(s: Seq<char>) -> Seq<char>;

/// Relies on `serde_json::to_string` for a `str`: it writes the JSON string
/// literal of `s`. Writing a `str` into memory cannot fail, so the error arm
/// is never taken.
#[verifier::external_body]
fn json_string(s: &str) -> (r: String)
    ensures
        r@ == json_string_of(s@),
{
    serde_json::to_string(s).unwrap_or_default()
}

/// A status record that the device publishes on its status topic.
#[derive(Debug, PartialEq, Eq)]
pub struct StatusMessage {
    pub status: String,
    pub details: Option<String>,
}

/// The optional details of a record, as a sequence of characters.
pub open spec fn opt_view(o: Option<String>) -> Option<Seq<char>> {
    match o {
        Some(s) => Some(s@),
        None => None,
    }
}

impl View for StatusMessage {
    type V = (Seq<char>, Option<Seq<char>>);

    open spec fn view(&self) -> (Seq<char>, Option<Seq<char>>) {
        (self.status@, opt_view(self.details))
    }
}

/// The JSON text of a status record:
/// `{"status":<string>,"details":<string or null>}`, without whitespace.
pub open spec fn status_json(m: (Seq<char>, Option<Seq<char>>)) -> Seq<char> {
    "{\"status\":"@ + json_string_of(m.0) + ",\"details\":"@ + match m.1 {
        Some(d) => json_string_of(d),
        None => "null"@,
    } + "}"@
}

impl StatusMessage {
    /// A record with the given status and details.
    pub fn new(status: &str, details: Option<&str>) -> (r: StatusMessage)
        ensures
            r@.0 == status@,
            r@.1 == match details {
                Some(d) => Some(d@),
                None => None::<Seq<char>>,
            },
    {
        let d = match details {
            Some(d) => Some(String::from_str(d)),
            None => None,
        };
        StatusMessage { status: String::from_str(status), details: d }
    }

    /// The record encoded as compact JSON text, fields in the order `status`,
    /// `details`; absent details are written as `null`.
    pub fn encode(&self) -> (r: String)
        ensures
            r@ == status_json(self@),
    {
        let mut out = String::from_str("{\"status\":");
        let s = json_string(self.status.as_str());
        out.append(s.as_str());
        out.append(",\"details\":");
        match &self.details {
            Some(d) => {
                let t = json_string(d.as_str());
                out.append(t.as_str());
            },
            None => {
                out.append("null");
            },
        }
        out.append("}");
        proof {
            assert(out@ =~= status_json(self@));
        }
        out
    }
}

} // verus!
