use vstd::prelude::*;
use crate::decimal::{append_int, int_text};

verus! {

/// A command sent to a handler.
pub enum Message {
    Quit,
    Move { x: i32, y: i32 },
    Write(String),
    ChangeColor(i32, i32, i32),
}

/// `(a, b)`
pub open spec fn pair_text(a: i32, b: i32) -> Seq<char> {
    "("@ + int_text(a as int) + ", "@ + int_text(b as int) + ")"@
}

/// `(a, b, c)`
pub open spec fn triple_text(a: i32, b: i32, c: i32) -> Seq<char> {
    "("@ + int_text(a as int) + ", "@ + int_text(b as int) + ", "@ + int_text(c as int) + ")"@
}

/// The line that announces a message.
pub open spec fn call_text(m: Message) -> Seq<char> {
    match m {
        Message::Quit => "Quit message"@,
        Message::Move { x, y } => "Move to "@ + pair_text(x, y),
        Message::Write(text) => "Write: "@ + text@,
        Message::ChangeColor(r, g, b) => "Color: "@ + triple_text(r, g, b),
    }
}

/// The reply to a message.
pub open spec fn reply_text(m: Message) -> Seq<char> {
    match m {
        Message::Quit => "Quitting"@,
        Message::Move { x, y } => if x > 0 && y > 0 {
            "Moving to positive quadrant: "@ + pair_text(x, y)
        } else {
            "Moving to "@ + pair_text(x, y)
        },
        Message::Write(text) => text@,
        Message::ChangeColor(r, g, b) => "RGB"@ + triple_text(r, g, b),
    }
}

fn append_pair(s: &mut String, a: i32, b: i32)
    ensures
        final(s)@ == old(s)@ + pair_text(a, b),
{
    s.append("(");
    append_int(s, a);
    s.append(", ");
    append_int(s, b);
    s.append(")");
    assert(s@ =~= old(s)@ + pair_text(a, b));
}

fn append_triple(s: &mut String, a: i32, b: i32, c: i32)
    ensures
        final(s)@ == old(s)@ + triple_text(a, b, c),
{
    s.append("(");
    append_int(s, a);
    s.append(", ");
    append_int(s, b);
    s.append(", ");
    append_int(s, c);
    s.append(")");
    assert(s@ =~= old(s)@ + triple_text(a, b, c));
}

impl Message {
    /// The line that announces this message; the caller prints it.
    pub fn call(&self) -> (r: String)
        ensures
            r@ == call_text(*self),
    {
        match self {
            Message::Quit => String::from_str("Quit message"),
            Message::Move { x, y } => {
                let mut s = String::from_str("Move to ");
                append_pair(&mut s, *x, *y);
                s
            },
            Message::Write(text) => {
                let mut s = String::from_str("Write: ");
                s.append(text.as_str());
                s
            },
            Message::ChangeColor(r, g, b) => {
                let mut s = String::from_str("Color: ");
                append_triple(&mut s, *r, *g, *b);
                s
            },
        }
    }
}

/// Answers a message.
pub fn process_message(msg: Message) -> (r: String)
    ensures
        r@ == reply_text(msg),
{
    match msg {
        Message::Quit => String::from_str("Quitting"),
        Message::Move { x, y } => {
            let mut s = if x > 0 && y > 0 {
                String::from_str("Moving to positive quadrant: ")
            } else {
                String::from_str("Moving to ")
            };
            append_pair(&mut s, x, y);
            s
        },
        Message::Write(text) => text,
        Message::ChangeColor(r, g, b) => {
            let mut s = String::from_str("RGB");
            append_triple(&mut s, r, g, b);
            s
        },
    }
}

/// Either a value or an error.
pub enum Result<T, E> {
    Value(T),
    Error(E),
}

impl<T, E> Result<T, E> {
    pub open spec fn spec_is_ok(&self) -> bool {
        self is Value
    }

    pub fn is_ok(&self) -> (r: bool)
        ensures
            r == self.spec_is_ok(),
    {
        match self {
            Result::Value(_) => true,
            Result::Error(_) => false,
        }
    }

    pub fn is_err(&self) -> (r: bool)
        ensures
            r == !self.spec_is_ok(),
    {
        match self {
            Result::Value(_) => false,
            Result::Error(_) => true,
        }
    }

    /// The value held by a `Value`.
    pub fn unwrap(self) -> (r: T)
        requires
            self.spec_is_ok(),
        ensures
            self == Result::<T, E>::Value(r),
    {
        match self {
            Result::Value(val) => val,
            Result::Error(_) => vstd::pervasive::unreached(),
        }
    }
}

} // verus!
