use vstd::prelude::*;
use vstd::string::StringExecFns;

verus! {

#[verifier::external_type_specification]
#[verifier::external_body]
pub struct ExJsonValue(serde_json::Value);

/// What serde_json reads from `b` when `b` is one JSON document whose top level
/// is an object: for each member, in the order the object's map yields them,
/// its key, its text where its value is a JSON string, and whether its value is
/// `null`. `None` where `b` is not JSON, or its top level is not an object.
pub uninterp spec fn json_object_of(b: Seq<u8>) -> Option<Seq<(Seq<char>, Option<Seq<char>>, bool)>>;

/// One member of a decoded JSON object.
struct Member {
    key: String,
    text: Option<String>,
    is_null: bool,
    value: serde_json::Value,
}

impl View for Member {
    type V = (Seq<char>, Option<Seq<char>>, bool);

    closed spec fn view(&self) -> (Seq<char>, Option<Seq<char>>, bool) {
        (
            self.key@,
            match self.text {
                Some(t) => Some(t@),
                None => None,
            },
            self.is_null,
        )
    }
}

spec fn members_view(v: Seq<Member>) -> Seq<(Seq<char>, Option<Seq<char>>, bool)> {
    v.map_values(|m: Member| m@)
}

/// Relies on `serde_json::from_slice` into a `serde_json::Value`: the payload
/// is parsed as one JSON document; where it is an object, its members are handed
/// out with `Value::as_str` and `Value::is_null` read off each value.
#[verifier::external_body]
fn parse_object(payload: &[u8]) -> (r: Option<Vec<Member>>)
    ensures
        match json_object_of(payload@) {
            Some(ms) => r is Some && members_view(r->0@) == ms,
            None => r is None,
        },
{
    match serde_json::from_slice::<serde_json::Value>(payload) {
        Ok(serde_json::Value::Object(map)) => Some(
            map.into_iter().map(|(key, value)| Member {
                key,
                text: value.as_str().map(String::from),
                is_null: value.is_null(),
                value,
            }).collect(),
        ),
        _ => None,
    }
}

/// A control command received on the device's command topic.
#[derive(Debug)]
pub enum ControlCommand {
    /// Start streaming; the parameters are carried but not acted on.
    StartStreaming { params: Option<serde_json::Value> },
    StopStreaming,
    Ping,
}

/// The model of a control command: its variant, and for `StartStreaming`
/// whether parameters were given.
pub enum CommandKind {
    StartStreaming { has_params: bool },
    StopStreaming,
    Ping,
}

impl View for ControlCommand {
    type V = CommandKind;

    open spec fn view(&self) -> CommandKind {
        match self {
            ControlCommand::StartStreaming { params } => CommandKind::StartStreaming {
                has_params: params is Some,
            },
            ControlCommand::StopStreaming => CommandKind::StopStreaming,
            ControlCommand::Ping => CommandKind::Ping,
        }
    }
}

/// The model of a decode result.
pub open spec fn kind_of(r: Option<ControlCommand>) -> Option<CommandKind> {
    match r {
        Some(c) => Some(c@),
        None => None,
    }
}

impl ControlCommand {
    /// Decodes a command payload: a JSON object whose `command` member names
    /// the command (`start_streaming`, `stop_streaming` or `ping`), with an
    /// optional `params` member for `start_streaming`. Malformed JSON, another
    /// top level, a missing or non-string `command`, or an unknown tag give
    /// `None`; no payload decodes to a default command.
    pub fn decode(payload: &[u8]) -> (r: Option<ControlCommand>)
        ensures
            kind_of(r) == decoded(payload@),
    {
        let parsed = parse_object(payload);
        let mut members = match parsed {
            Some(members) => members,
            None => {
                return None;
            },
        };
        let ghost ms = members_view(members@);
        let ci = find_member(&members, &String::from_str("command"));
        let i = match ci {
            Some(i) => i,
            None => {
                return None;
            },
        };
        assert(ms[i as int] == members@[i as int]@);
        let tag = match &members[i].text {
            Some(t) => t,
            None => {
                assert(ms[i as int].1 is None);
                return None;
            },
        };
        assert(ms[i as int].1 == Some(tag@));
        proof {
            lemma_tags_distinct();
        }
        if *tag == String::from_str("stop_streaming") {
            Some(ControlCommand::StopStreaming)
        } else if *tag == String::from_str("ping") {
            Some(ControlCommand::Ping)
        } else if *tag == String::from_str("start_streaming") {
            let pi = find_member(&members, &String::from_str("params"));
            let params = match pi {
                Some(k) => {
                    assert(ms[k as int] == members@[k as int]@);
                    if members[k].is_null {
                        None
                    } else {
                        let m = members.remove(k);
                        Some(m.value)
                    }
                },
                None => None,
            };
            Some(ControlCommand::StartStreaming { params })
        } else {
            None
        }
    }
}

/// The tag that names a command.
pub open spec fn tag_of(c: CommandKind) -> Seq<char> {
    match c {
        CommandKind::StartStreaming { .. } => "start_streaming"@,
        CommandKind::StopStreaming => "stop_streaming"@,
        CommandKind::Ping => "ping"@,
    }
}

/// The text of a payload's `command` member, where the payload is a JSON
/// object and that member is a string.
pub open spec fn command_text(payload: Seq<u8>) -> Option<Seq<char>> {
    match json_object_of(payload) {
        None => None,
        Some(ms) => match member_index(ms, "command"@) {
            None => None,
            Some(i) => ms[i].1,
        },
    }
}

/// Decoding is total and closed: a payload decodes exactly when it is a JSON
/// object whose `command` member is a string naming one of the three
/// commands, and then to the command that string names. Malformed JSON, any
/// other top level, a missing or non-string `command`, and every other tag
/// decode to nothing, never to a default command.
pub proof fn lemma_decode_total(payload: Seq<u8>)
    ensures
        decoded(payload) is Some <==> {
            &&& command_text(payload) is Some
            &&& {
                let t = command_text(payload)->0;
                t == "start_streaming"@ || t == "stop_streaming"@ || t == "ping"@
            }
        },
        decoded(payload) is Some ==> tag_of(decoded(payload)->0) == command_text(payload)->0,
        json_object_of(payload) is None ==> decoded(payload) is None,
{
    lemma_tags_distinct();
}

proof fn lemma_tags_distinct()
    ensures
        "start_streaming"@ != "stop_streaming"@,
        "start_streaming"@ != "ping"@,
        "stop_streaming"@ != "ping"@,
{
    reveal_strlit("start_streaming");
    reveal_strlit("stop_streaming");
    reveal_strlit("ping");
    assert("start_streaming"@.len() == 15);
    assert("stop_streaming"@.len() == 14);
    assert("ping"@.len() == 4);
}

/// The first index of a member with key `key`, if there is one.
pub open spec fn member_index(ms: Seq<(Seq<char>, Option<Seq<char>>, bool)>, key: Seq<char>) -> Option<int>
    decreases ms.len(),
{
    if ms.len() == 0 {
        None
    } else {
        match member_index(ms.drop_last(), key) {
            Some(i) => Some(i),
            None => if ms.last().0 == key {
                Some(ms.len() - 1)
            } else {
                None
            },
        }
    }
}

/// The command that a tag names: `start_streaming`, `stop_streaming` or `ping`.
/// No other tag names a command.
pub open spec fn command_of_tag(tag: Seq<char>, has_params: bool) -> Option<CommandKind> {
    if tag == "start_streaming"@ {
        Some(CommandKind::StartStreaming { has_params })
    } else if tag == "stop_streaming"@ {
        Some(CommandKind::StopStreaming)
    } else if tag == "ping"@ {
        Some(CommandKind::Ping)
    } else {
        None
    }
}

/// The command that the members of an object encode: the `command` member
/// must be a string naming a command; `params` counts as given where it is
/// present and not `null`. Other members are ignored.
pub open spec fn command_of_members(ms: Seq<(Seq<char>, Option<Seq<char>>, bool)>) -> Option<CommandKind> {
    match member_index(ms, "command"@) {
        None => None,
        Some(i) => match ms[i].1 {
            None => None,
            Some(tag) => command_of_tag(
                tag,
                match member_index(ms, "params"@) {
                    Some(k) => !ms[k].2,
                    None => false,
                },
            ),
        },
    }
}

/// The command that a payload encodes, if any.
pub open spec fn decoded(payload: Seq<u8>) -> Option<CommandKind> {
    match json_object_of(payload) {
        None => None,
        Some(ms) => command_of_members(ms),
    }
}

proof fn lemma_member_index_bounds(ms: Seq<(Seq<char>, Option<Seq<char>>, bool)>, key: Seq<char>)
    ensures
        member_index(ms, key) is Some ==> {
            let i = member_index(ms, key)->0;
            &&& 0 <= i < ms.len()
            &&& ms[i].0 == key
            &&& forall|j: int| 0 <= j < i ==> #[trigger] ms[j].0 != key
        },
        member_index(ms, key) is None ==> forall|j: int| 0 <= j < ms.len() ==> #[trigger] ms[j].0 != key,
    decreases ms.len(),
{
    if ms.len() > 0 {
        lemma_member_index_bounds(ms.drop_last(), key);
        assert forall|j: int| 0 <= j < ms.len() - 1 implies ms.drop_last()[j] == ms[j] by {}
    }
}

/// Finds the first member with the given key.
fn find_member(members: &Vec<Member>, key: &String) -> (r: Option<usize>)
    ensures
        r is Some ==> r->0 < members.len() && member_index(members_view(members@), key@) == Some(
            r->0 as int,
        ),
        r is None ==> member_index(members_view(members@), key@) is None,
{
    let ghost ms = members_view(members@);
    let mut i: usize = 0;
    while i < members.len()
        invariant
            i <= members.len(),
            ms == members_view(members@),
            forall|j: int| 0 <= j < i ==> #[trigger] ms[j].0 != key@,
        decreases members.len() - i,
    {
        if members[i].key == *key {
            proof {
                lemma_member_index_bounds(ms, key@);
                assert(ms[i as int].0 == key@);
                if member_index(ms, key@) is Some {
                    let k = member_index(ms, key@)->0;
                    if k < i {
                        assert(ms[k].0 != key@);
                    }
                }
            }
            return Some(i);
        }
        i = i + 1;
    }
    proof {
        lemma_member_index_bounds(ms, key@);
    }
    None
}

} // verus!
