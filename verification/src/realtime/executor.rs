//! Function calls that the session asks for, and the executor they are
//! handed to.

use vstd::prelude::*;

use crate::bytes::{
    be32, be32_at, law_be32_round_trip, law_orders_are_reversed, low32, number_in, push_all,
    push_be32, truncate_len,
};
use crate::media::ErrorMessage;
use crate::text::{chars_of, first_index, law_first_index, lemma_first_index, opt_text};

verus! {

#[verifier::external_type_specification]
#[verifier::external_body]
#[verifier::reject_recursive_types(K)]
#[verifier::reject_recursive_types(V)]
pub struct ExJsonMap<K, V>(serde_json::Map<K, V>);

#[verifier::external_type_specification]
#[verifier::external_body]
pub struct ExJsonValue(serde_json::Value);

#[verifier::external_type_specification]
#[verifier::external_body]
pub struct ExJsonError(serde_json::Error);

/// The members of a JSON object: under each name, the value as compact JSON.
pub uninterp spec fn object_members(
    object: serde_json::Map<String, serde_json::Value>,
) -> Map<Seq<char>, Seq<char>>;

/// The members of the JSON object that a text is, if it is one.
pub uninterp spec fn json_object(text: Seq<char>) -> Option<Map<Seq<char>, Seq<char>>>;

/// Calls `serde_json::from_str`, for an object. Whether the text is an object,
/// and which members it has, is taken to be a function of the text.
#[verifier::external_body]
fn parse_object(text: &str) -> (r: Result<
    serde_json::Map<String, serde_json::Value>,
    serde_json::Error,
>)
    ensures
        match r {
            Ok(object) => json_object(text@) == Some(object_members(object)),
            Err(_) => json_object(text@) is None,
        },
{
    serde_json::from_str(text)
}

/// The position of the last `c` in the characters, or -1.
pub open spec fn last_index(chars: Seq<char>, c: char) -> int
    decreases chars.len(),
{
    if chars.len() == 0 {
        -1
    } else if chars.last() == c {
        chars.len() - 1
    } else {
        last_index(chars.drop_last(), c)
    }
}

proof fn lemma_last_index(chars: Seq<char>, c: char, at: int)
    requires
        -1 <= at < chars.len(),
        forall|i: int| at < i < chars.len() ==> chars[i] != c,
        at >= 0 ==> chars[at] == c,
    ensures
        last_index(chars, c) == at,
    decreases chars.len(),
{
    if chars.len() > 0 && chars.last() != c {
        lemma_last_index(chars.drop_last(), c, at);
    }
}

/// A function call: the function's name, and its arguments by name.
#[derive(Debug)]
pub struct FunctionCall {
    pub name: String,
    pub arguments: serde_json::Map<String, serde_json::Value>,
}

/// Calls `serde_json::Map::clone`. The copy is taken to hold the same members.
#[verifier::external_body]
fn clone_object(object: &serde_json::Map<String, serde_json::Value>) -> (r: serde_json::Map<
    String,
    serde_json::Value,
>)
    ensures
        object_members(r) == object_members(*object),
{
    object.clone()
}

impl Clone for FunctionCall {
    fn clone(&self) -> (r: FunctionCall)
        ensures
            r.name@ == self.name@,
            object_members(r.arguments) == object_members(self.arguments),
    {
        FunctionCall { name: self.name.clone(), arguments: clone_object(&self.arguments) }
    }
}

impl FunctionCall {
    /// The part of a text from the first `start` to the last `end`, if it has
    /// both.
    pub open spec fn enclosed(text: Seq<char>, start: char, end: char) -> Option<Seq<char>> {
        let first = first_index(text, start);
        let last = last_index(text, end);
        if first < text.len() && last >= 0 {
            Some(text.subrange(first, last + 1))
        } else {
            None
        }
    }

    /// Whether the text from the first `start` to the last `end` does not run
    /// backwards.
    pub open spec fn in_order(text: Seq<char>, start: char, end: char) -> bool {
        let first = first_index(text, start);
        let last = last_index(text, end);
        first < text.len() && last >= 0 ==> first <= last + 1
    }

    /// Whether a text can be searched for arguments: its last closing brace
    /// does not come before its first opening brace with something between.
    pub open spec fn searchable(text: Seq<char>) -> bool {
        Self::in_order(text, '{', '}')
    }

    /// The arguments that a text holds: the members of the object from the
    /// first opening to the last closing brace, whatever stands around it.
    pub open spec fn arguments_in(text: Seq<char>) -> Option<Map<Seq<char>, Seq<char>>> {
        match Self::enclosed(text, '{', '}') {
            Some(object) => json_object(object),
            None => None,
        }
    }

    fn find_ends(chars: &Vec<char>, start_char: char, end_char: char) -> (r: Option<(usize, usize)>)
        ensures
            match r {
                Some((first, last)) => {
                    &&& first == first_index(chars@, start_char)
                    &&& last == last_index(chars@, end_char)
                    &&& first < chars@.len()
                    &&& last < chars@.len()
                },
                None => first_index(chars@, start_char) >= chars@.len() || last_index(
                    chars@,
                    end_char,
                ) < 0,
            },
    {
        let mut first: usize = 0;
        while first < chars.len() && chars[first] != start_char
            invariant
                first <= chars@.len(),
                forall|i: int| 0 <= i < first ==> chars@[i] != start_char,
            decreases chars@.len() - first,
        {
            first = first + 1;
        }
        let mut after: usize = chars.len();
        while after > 0 && chars[after - 1] != end_char
            invariant
                after <= chars@.len(),
                forall|i: int| after <= i < chars@.len() ==> chars@[i] != end_char,
            decreases after,
        {
            after = after - 1;
        }
        proof {
            lemma_first_index(chars@, start_char, first as int);
            lemma_last_index(chars@, end_char, after - 1);
        }
        if first < chars.len() && after > 0 {
            Some((first, after - 1))
        } else {
            None
        }
    }

    /// Whether a text can be searched for arguments.
    pub fn is_searchable(text: &str) -> (r: bool)
        ensures
            r == Self::searchable(text@),
    {
        match Self::find_ends(&chars_of(text), '{', '}') {
            Some((first, last)) => first <= last || first - last == 1,
            None => true,
        }
    }

    /// Cuts away what precedes the first `start_char` and what follows the
    /// last `end_char`.
    pub fn remove_surrounding_chars(
        input_str: &str,
        start_char: char,
        end_char: char,
    ) -> (r: Option<String>)
        requires
            Self::in_order(input_str@, start_char, end_char),
            Self::enclosed(input_str@, start_char, end_char) is Some ==> end_char < '\u{80}',
        ensures
            opt_text(r) == Self::enclosed(input_str@, start_char, end_char),
    {
        match Self::find_ends(&chars_of(input_str), start_char, end_char) {
            Some((first, last)) => Some(input_str.substring_char(first, last + 1).to_string()),
            None => None,
        }
    }

    /// Reads the arguments that a text holds, whatever stands around them.
    pub fn try_parse_arguments(input_str: &str) -> (r: Option<
        serde_json::Map<String, serde_json::Value>,
    >)
        requires
            Self::searchable(input_str@),
        ensures
            match r {
                Some(object) => Self::arguments_in(input_str@) == Some(object_members(object)),
                None => Self::arguments_in(input_str@) is None,
            },
    {
        match Self::remove_surrounding_chars(input_str, '{', '}') {
            Some(object) => match parse_object(object.as_str()) {
                Ok(members) => Some(members),
                Err(_) => None,
            },
            None => None,
        }
    }

    /// A call of the named function with arguments that were read before; no
    /// call where none were found.
    pub fn with_arguments(
        name: &str,
        arguments: Option<serde_json::Map<String, serde_json::Value>>,
    ) -> (r: Option<FunctionCall>)
        ensures
            match r {
                Some(call) => call.name@ == name@ && arguments == Some(call.arguments),
                None => arguments is None,
            },
    {
        match arguments {
            Some(arguments) => Some(FunctionCall { name: name.to_string(), arguments }),
            None => None,
        }
    }

    /// A call of the named function with the arguments that a text holds.
    pub fn from(name: &str, arguments: &str) -> (r: Option<FunctionCall>)
        requires
            Self::searchable(arguments@),
        ensures
            match r {
                Some(call) => {
                    &&& call.name@ == name@
                    &&& Self::arguments_in(arguments@) == Some(object_members(call.arguments))
                },
                None => Self::arguments_in(arguments@) is None,
            },
    {
        Self::with_arguments(name, Self::try_parse_arguments(arguments))
    }
}

/// A message to the executor: the length of the content, then the content.
pub open spec fn framed(content: Seq<u8>) -> Seq<u8> {
    be32(low32(content.len())) + content
}

/// How handing a message to the executor failed.
#[derive(Debug)]
pub enum SendFailure {
    Clone(String),
    Write(String),
}

/// The connection to the executor, as far as it is known to stand.
#[derive(Debug, Clone, Copy, PartialEq, Eq, Structural)]
pub struct Executor {
    pub connected: bool,
}

impl Executor {
    /// An executor that is not connected yet.
    pub fn default() -> (r: Executor)
        ensures
            !r.connected,
    {
        Executor { connected: false }
    }

    /// What has to be done for the executor to be connected: nothing, or
    /// connecting to the address returned. Without an address it fails.
    pub fn ensure_connection(&self, addr: &Option<String>) -> (r: Result<
        Option<String>,
        ErrorMessage,
    >)
        ensures
            match r {
                Ok(None) => self.connected,
                Ok(Some(to)) => !self.connected && opt_text(*addr) == Some(to@),
                Err(e) => !self.connected && *addr is None && e@ == "Addr is not set"@,
            },
    {
        if self.connected {
            return Ok(None);
        }
        match addr {
            Some(addr) => Ok(Some(addr.clone())),
            None => Err(ErrorMessage::new("Addr is not set")),
        }
    }

    /// Takes note of how connecting to `addr` went.
    pub fn connection_attempted(&mut self, addr: &str, outcome: Result<(), String>) -> (r: Result<
        (),
        ErrorMessage,
    >)
        ensures
            match outcome {
                Ok(_) => r is Ok && final(self).connected,
                Err(cause) => {
                    &&& r is Err
                    &&& r->Err_0@ == "Failed to connect "@ + addr@ + ", error: "@ + cause@
                    &&& *final(self) == *old(self)
                },
            },
    {
        match outcome {
            Ok(_) => {
                self.connected = true;
                Ok(())
            },
            Err(cause) => {
                let mut text: String = "Failed to connect ".to_string();
                text.append(addr);
                text.append(", error: ");
                text.append(cause.as_str());
                Err(ErrorMessage { text })
            },
        }
    }

    /// The message to send for a function call, given the call in JSON or why
    /// it could not be written.
    pub fn execute(&self, content: Result<Vec<u8>, String>) -> (r: Result<Vec<u8>, ErrorMessage>)
        ensures
            match r {
                Ok(message) => self.connected && content is Ok && message@ == framed(
                    content->Ok_0@,
                ),
                Err(e) => if !self.connected {
                    e@ == "Not connected to executor"@
                } else {
                    content is Err && e@ == "Failed to serialize FunctionCall: "@
                        + content->Err_0@
                },
            },
    {
        if !self.connected {
            return Err(ErrorMessage::new("Not connected to executor"));
        }
        match content {
            Ok(content) => {
                let mut message: Vec<u8> = Vec::new();
                push_be32(&mut message, truncate_len(content.len()));
                push_all(&mut message, content.as_slice());
                assert(message@ =~= framed(content@));
                Ok(message)
            },
            Err(cause) => Err(
                ErrorMessage::because("Failed to serialize FunctionCall: ", cause.as_str()),
            ),
        }
    }

    /// What is answered once the message was handed over.
    pub fn executed(outcome: Result<(), SendFailure>) -> (r: Result<(), ErrorMessage>)
        ensures
            match outcome {
                Ok(_) => r is Ok,
                Err(SendFailure::Write(cause)) => r is Err && r->Err_0@
                    == "Failed to send contents "@ + cause@,
                Err(SendFailure::Clone(cause)) => r is Err && r->Err_0@
                    == "Failed to clone stream "@ + cause@,
            },
    {
        match outcome {
            Ok(_) => Ok(()),
            Err(SendFailure::Write(cause)) => Err(
                ErrorMessage::because("Failed to send contents ", cause.as_str()),
            ),
            Err(SendFailure::Clone(cause)) => Err(
                ErrorMessage::because("Failed to clone stream ", cause.as_str()),
            ),
        }
    }

    /// Forgets the connection.
    pub fn reset_connection(&mut self)
        ensures
            !final(self).connected,
    {
        self.connected = false;
    }

    /// Whether the executor is connected.
    pub fn is_connected(&self) -> (r: bool)
        ensures
            r == self.connected,
    {
        self.connected
    }
}

/// Whatever stands before an argument object without an opening brace, and
/// after it without a closing one, the same arguments are found.
pub proof fn law_surroundings_are_ignored(before: Seq<char>, object: Seq<char>, after: Seq<char>)
    requires
        object.len() >= 2,
        object[0] == '{',
        object.last() == '}',
        !before.contains('{'),
        !after.contains('}'),
    ensures
        FunctionCall::searchable(before + object + after),
        FunctionCall::arguments_in(before + object + after) == json_object(object),
{
    let text = before + object + after;
    assert forall|i: int| 0 <= i < before.len() implies text[i] != '{' by {
        assert(text[i] == before[i]);
    }
    let last = before.len() + object.len() - 1;
    assert(text[last] == object.last());
    assert forall|i: int| last < i < text.len() implies text[i] != '}' by {
        assert(text[i] == after[i - last - 1]);
    }
    lemma_first_index(text, '{', before.len() as int);
    lemma_last_index(text, '}', last);
    assert(text.subrange(before.len() as int, last + 1) =~= object);
}

/// A message to the executor can be taken apart again: its first four bytes
/// tell how long the content is that follows.
pub proof fn law_message_can_be_read(content: Seq<u8>)
    requires
        content.len() <= u32::MAX,
    ensures
        be32_at(framed(content), 0) == content.len(),
        framed(content).len() == 4 + content.len(),
        framed(content).skip(4) == content,
{
    law_be32_round_trip(low32(content.len()));
    assert(be32_at(framed(content), 0) == be32_at(be32(low32(content.len())), 0));
    assert(framed(content).skip(4) =~= content);
}

/// The last position of a character is where it stands last, and -1 where it
/// does not stand at all.
pub proof fn law_last_index(chars: Seq<char>, c: char)
    ensures
        -1 <= last_index(chars, c) < chars.len(),
        last_index(chars, c) >= 0 ==> chars[last_index(chars, c)] == c,
        forall|i: int| last_index(chars, c) < i < chars.len() ==> #[trigger] chars[i] != c,
    decreases chars.len(),
{
    if chars.len() > 0 && chars.last() != c {
        let front = chars.drop_last();
        law_last_index(front, c);
        assert forall|i: int| last_index(chars, c) < i < chars.len() implies #[trigger] chars[i]
            != c by {
            if i < front.len() {
                assert(chars[i] == front[i]);
            }
        }
    }
}

/// What is cut out of a text starts with its first opening character and ends
/// with its last closing one, with all that stands between; there is something
/// to cut out exactly if the text has both.
pub proof fn law_enclosed_text(text: Seq<char>, start: char, end: char)
    ensures
        FunctionCall::enclosed(text, start, end) is Some <==> text.contains(start)
            && text.contains(end),
        FunctionCall::enclosed(text, start, end) is Some ==> exists|first: int, last: int|
            {
                &&& 0 <= first < text.len()
                &&& 0 <= last < text.len()
                &&& text[first] == start
                &&& text[last] == end
                &&& forall|i: int| 0 <= i < first ==> #[trigger] text[i] != start
                &&& forall|i: int| last < i < text.len() ==> #[trigger] text[i] != end
                &&& FunctionCall::enclosed(text, start, end)->0 == #[trigger] text.subrange(
                    first,
                    last + 1,
                )
                &&& FunctionCall::in_order(text, start, end) <==> first <= last + 1
            },
{
    let first = first_index(text, start);
    let last = last_index(text, end);
    law_first_index(text, start);
    law_last_index(text, end);
    if FunctionCall::enclosed(text, start, end) is Some {
        assert(text.contains(text[first]) && text.contains(text[last]));
        assert(FunctionCall::enclosed(text, start, end)->0 == text.subrange(first, last + 1));
    }
    if text.contains(start) && text.contains(end) {
        let i = choose|i: int| 0 <= i < text.len() && text[i] == start;
        let j = choose|j: int| 0 <= j < text.len() && text[j] == end;
        assert(!(i < first));
        assert(!(last < j));
    }
}

/// Arguments are what the braces of a text enclose, if that is an object; a
/// text without braces holds none.
pub proof fn law_arguments_are_enclosed(text: Seq<char>)
    ensures
        !(text.contains('{') && text.contains('}')) ==> FunctionCall::arguments_in(text) is None,
        FunctionCall::enclosed(text, '{', '}') is Some ==> FunctionCall::arguments_in(text)
            == json_object(FunctionCall::enclosed(text, '{', '}')->0),
        FunctionCall::searchable(text) <==> FunctionCall::in_order(text, '{', '}'),
{
    law_enclosed_text(text, '{', '}');
}

/// A connected executor needs nothing, any other its address; connecting is
/// noted when it worked and explained when not.
pub proof fn law_connecting_the_executor(
    executor: &Executor,
    addr: &Option<String>,
    needed: Result<Option<String>, ErrorMessage>,
)
    requires
        call_ensures(Executor::ensure_connection, (executor, addr), needed),
    ensures
        executor.connected <==> needed is Ok && needed->Ok_0 is None,
        !executor.connected && *addr is Some ==> needed is Ok && needed->Ok_0 is Some
            && needed->Ok_0->0@ == addr->0@,
        !executor.connected && *addr is None ==> needed is Err && needed->Err_0@
            == "Addr is not set"@,
{
}

/// Connecting is taken note of when it worked; when it did not, the executor is
/// as it was, and the address and the cause are told.
pub proof fn law_executor_attempts(
    executor: &mut Executor,
    addr: &str,
    outcome: Result<(), String>,
    result: Result<(), ErrorMessage>,
)
    requires
        call_ensures(Executor::connection_attempted, (executor, addr, outcome), result),
    ensures
        result is Ok <==> outcome is Ok,
        outcome is Ok ==> final(executor).connected,
        outcome is Err ==> final(executor).connected == old(executor).connected && result->Err_0@
            == "Failed to connect "@ + addr@ + ", error: "@ + outcome->Err_0@,
{
}

/// The message for a call is its content behind the content's length, most
/// significant byte first; it exists exactly if the executor is connected and
/// there is a content.
pub proof fn law_executor_messages(
    executor: &Executor,
    content: Result<Vec<u8>, String>,
    message: Result<Vec<u8>, ErrorMessage>,
)
    requires
        call_ensures(Executor::execute, (executor, content), message),
    ensures
        message is Ok <==> executor.connected && content is Ok,
        message is Ok ==> {
            &&& message->Ok_0@.len() == 4 + content->Ok_0@.len()
            &&& number_in(message->Ok_0@.subrange(0, 4).reverse()) == content->Ok_0@.len()
                % 4294967296
            &&& message->Ok_0@.skip(4) == content->Ok_0@
        },
        !executor.connected ==> message is Err && message->Err_0@ == "Not connected to executor"@,
        executor.connected && content is Err ==> message->Err_0@
            == "Failed to serialize FunctionCall: "@ + content->Err_0@,
{
    if message is Ok {
        let n = low32(content->Ok_0@.len());
        law_orders_are_reversed(n);
        assert(message->Ok_0@.subrange(0, 4) =~= be32(n));
        assert(message->Ok_0@.skip(4) =~= content->Ok_0@);
    }
}

/// A call has the name it was asked for under and the arguments that stand in
/// the text; without arguments there is no call.
pub proof fn law_function_calls(name: &str, arguments: &str, call: Option<FunctionCall>)
    requires
        FunctionCall::searchable(arguments@),
        call_ensures(FunctionCall::from, (name, arguments), call),
    ensures
        call is Some ==> call->0.name@ == name@ && arguments@.contains('{') && arguments@.contains(
            '}',
        ),
        call is Some <==> FunctionCall::enclosed(arguments@, '{', '}') is Some && json_object(
            FunctionCall::enclosed(arguments@, '{', '}')->0,
        ) is Some,
        call is Some ==> json_object(FunctionCall::enclosed(arguments@, '{', '}')->0) == Some(
            object_members(call->0.arguments),
        ),
{
    law_enclosed_text(arguments@, '{', '}');
}

} // verus!
