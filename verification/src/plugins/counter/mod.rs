//! Counters: `name++`, `name--` and `name==` in a channel change or show a
//! count kept per name.
use vstd::prelude::*;

use crate::plugin::ExecutionStatus;
use crate::text::{byte_len, chars_of, prefix_chars, string_from_chars};

pub mod database;
pub mod error;

verus! {

/// What a counter message asks for.
#[derive(Clone, Copy, Debug, PartialEq, Eq, Structural)]
pub enum CounterOp {
    /// `name++`
    Increment,
    /// `name--`
    Decrement,
    /// `name==`
    Show,
}

/// The operation named by the last two characters of `content`, if any.
pub open spec fn suffix_op(content: Seq<char>) -> Option<CounterOp> {
    if content.len() < 2 {
        None
    } else {
        let a = content[content.len() - 2];
        let b = content[content.len() - 1];
        if a == '+' && b == '+' {
            Some(CounterOp::Increment)
        } else if a == '-' && b == '-' {
            Some(CounterOp::Decrement)
        } else if a == '=' && b == '=' {
            Some(CounterOp::Show)
        } else {
            None
        }
    }
}

/// A channel message addresses the counters when it holds no space, is longer
/// than two bytes, and its last two bytes are `++`, `--` or `==`. (Those two
/// bytes are then two ASCII characters, so they start on a character boundary.)
pub open spec fn is_counter_message(content: Seq<char>) -> bool {
    &&& !content.contains(' ')
    &&& byte_len(content) > 2
    &&& suffix_op(content) is Some
}

/// A counter message, split into the counter's name and the operation.
pub struct CounterRequest {
    pub name: String,
    pub op: CounterOp,
}

/// The counter plugin.
pub struct Counter {}

proof fn lemma_ascii_tail_byte_len(s: Seq<char>)
    requires
        s.len() >= 2,
        (s[s.len() - 1] as u32) < 0x80,
        (s[s.len() - 2] as u32) < 0x80,
    ensures
        byte_len(s) == byte_len(s.drop_last().drop_last()) + 2,
        byte_len(s) > 2 <==> s.len() > 2,
{
    let t = s.drop_last().drop_last();
    assert(s.drop_last().last() == s[s.len() - 2]);
    assert(byte_len(s.drop_last()) == byte_len(t) + 1);
    if t.len() > 0 {
        assert(byte_len(t) >= 1);
    } else {
        assert(byte_len(t) == 0);
    }
}

impl Counter {
    /// A counter plugin.
    pub fn new() -> (c: Counter) {
        Counter {}
    }

    /// Whether a channel message is for the counters (`execute`).
    pub fn execute(&self, content: &str) -> (s: ExecutionStatus)
        ensures
            s == (if is_counter_message(content@) {
                ExecutionStatus::RequiresThread
            } else {
                ExecutionStatus::Done
            }),
    {
        let cs = chars_of(content);
        let n = cs.len();
        let mut i: usize = 0;
        while i < n
            invariant
                n == cs@.len(),
                cs@ == content@,
                i <= n,
                forall|j: int| 0 <= j < i ==> cs@[j] != ' ',
            decreases n - i,
        {
            if cs[i] == ' ' {
                proof {
                    assert(content@.contains(' ')) by {
                        assert(content@[i as int] == ' ');
                    }
                }
                return ExecutionStatus::Done;
            }
            i = i + 1;
        }
        proof {
            assert(!content@.contains(' ')) by {
                if content@.contains(' ') {
                    let k = choose|k: int| 0 <= k < content@.len() && content@[k] == ' ';
                    assert(cs@[k] != ' ');
                }
            }
        }
        if n < 2 {
            return ExecutionStatus::Done;
        }
        let a = cs[n - 2];
        let b = cs[n - 1];
        let matched = (a == '+' && b == '+') || (a == '-' && b == '-') || (a == '=' && b == '=');
        if !matched {
            return ExecutionStatus::Done;
        }
        proof {
            lemma_ascii_tail_byte_len(content@);
        }
        if n > 2 {
            ExecutionStatus::RequiresThread
        } else {
            ExecutionStatus::Done
        }
    }

    /// Splits a counter message into name and operation (`execute_threaded`).
    pub fn request(&self, content: &str) -> (r: CounterRequest)
        requires
            is_counter_message(content@),
        ensures
            r.name@ == content@.drop_last().drop_last(),
            Some(r.op) == suffix_op(content@),
    {
        let cs = chars_of(content);
        let n = cs.len();
        let a = cs[n - 2];
        let op = if a == '+' {
            CounterOp::Increment
        } else if a == '-' {
            CounterOp::Decrement
        } else {
            CounterOp::Show
        };
        let name = string_from_chars(prefix_chars(cs.as_slice(), n - 2).as_slice());
        CounterRequest { name, op }
    }

    /// The answer to a `counter` command: the plugin has none.
    pub fn command(&self) -> (s: String)
        ensures
            s@ == "This Plugin does not implement any commands."@,
    {
        "This Plugin does not implement any commands.".to_owned()
    }

    /// Evaluation is not offered.
    pub fn evaluate(&self) -> (r: Result<String, String>)
        ensures
            r matches Err(m) && m@ == "Evaluation of commands is not implemented for Factoid at this time"@,
    {
        Err("Evaluation of commands is not implemented for Factoid at this time".to_owned())
    }
}

} // verus!
