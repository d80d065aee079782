use vstd::prelude::*;
use vstd::string::*;

verus! {

/// The texts that a list of strings holds.
pub open spec fn texts(strings: Seq<String>) -> Seq<Seq<char>> {
    strings.map_values(|string: String| string@)
}

/// The text of an optional string.
pub open spec fn optional_text(string: Option<String>) -> Option<Seq<char>> {
    match string {
        Some(string) => Some(string@),
        None => None,
    }
}

/// `text`, or `fallback` where there is none.
pub open spec fn text_or(text: Option<Seq<char>>, fallback: Seq<char>) -> Seq<char> {
    match text {
        Some(text) => text,
        None => fallback,
    }
}

/// Copies `text`, or `fallback` where there is none.
pub fn copy_or(text: &Option<String>, fallback: &str) -> (copy: String)
    ensures
        copy@ == text_or(optional_text(*text), fallback@),
{
    match text {
        Some(text) => text.clone(),
        None => String::from_str(fallback),
    }
}

/// Writes the four texts one after the other.
pub fn concat4(first: &str, second: &str, third: &str, fourth: &str) -> (line: String)
    ensures
        line@ == first@ + second@ + third@ + fourth@,
{
    let mut line = String::from_str(first);
    line.append(second);
    line.append(third);
    line.append(fourth);
    line
}

/// `parts` written one after the other with `separator` between neighbours.
pub open spec fn joined(parts: Seq<Seq<char>>, separator: Seq<char>) -> Seq<char>
    decreases parts.len(),
{
    if parts.len() == 0 {
        Seq::empty()
    } else if parts.len() == 1 {
        parts[0]
    } else {
        joined(parts.drop_last(), separator) + separator + parts.last()
    }
}

/// Writes `parts[from..to]` one after the other with `separator` between
/// neighbours.
pub(crate) fn join_range(parts: &Vec<String>, from: usize, to: usize, separator: &str) -> (line:
    String)
    requires
        from <= to <= parts.len(),
    ensures
        line@ == joined(texts(parts@.subrange(from as int, to as int)), separator@),
{
    let mut line = String::new();
    let mut next: usize = from;
    while next < to
        invariant
            from <= next <= to <= parts.len(),
            line@ == joined(texts(parts@.subrange(from as int, next as int)), separator@),
        decreases to - next,
    {
        proof {
            let before = texts(parts@.subrange(from as int, next as int));
            let through = texts(parts@.subrange(from as int, next + 1));
            assert(through.drop_last() =~= before);
            assert(through.last() == parts@[next as int]@);
            assert(before.len() == 0 ==> line@ =~= Seq::<char>::empty());
        }
        if next > from {
            line.append(separator);
        }
        line.append(parts[next].as_str());
        next = next + 1;
    }
    line
}

/// Writes `parts` one after the other with `separator` between neighbours.
pub fn join(parts: &Vec<String>, separator: &str) -> (line: String)
    ensures
        line@ == joined(texts(parts@), separator@),
{
    proof {
        assert(parts@.subrange(0, parts.len() as int) =~= parts@);
    }
    join_range(parts, 0, parts.len(), separator)
}

/// The character that writes the digit `digit`.
pub open spec fn digit_char(digit: nat) -> char {
    if digit == 0 {
        '0'
    } else if digit == 1 {
        '1'
    } else if digit == 2 {
        '2'
    } else if digit == 3 {
        '3'
    } else if digit == 4 {
        '4'
    } else if digit == 5 {
        '5'
    } else if digit == 6 {
        '6'
    } else if digit == 7 {
        '7'
    } else if digit == 8 {
        '8'
    } else {
        '9'
    }
}

/// `number` in decimal, without sign or leading zeros.
pub open spec fn decimal_digits(number: nat) -> Seq<char>
    decreases number,
{
    if number < 10 {
        seq![digit_char(number)]
    } else {
        decimal_digits(number / 10).push(digit_char(number % 10))
    }
}

fn digit_text(digit: u64) -> (text: &'static str)
    requires
        digit < 10,
    ensures
        text@ == seq![digit_char(digit as nat)],
{
    proof {
        reveal_strlit("0");
        reveal_strlit("1");
        reveal_strlit("2");
        reveal_strlit("3");
        reveal_strlit("4");
        reveal_strlit("5");
        reveal_strlit("6");
        reveal_strlit("7");
        reveal_strlit("8");
        reveal_strlit("9");
    }
    let text = if digit == 0 {
        "0"
    } else if digit == 1 {
        "1"
    } else if digit == 2 {
        "2"
    } else if digit == 3 {
        "3"
    } else if digit == 4 {
        "4"
    } else if digit == 5 {
        "5"
    } else if digit == 6 {
        "6"
    } else if digit == 7 {
        "7"
    } else if digit == 8 {
        "8"
    } else {
        "9"
    };
    assert(text@ =~= seq![digit_char(digit as nat)]);
    text
}

/// Writes `number` in decimal.
pub fn decimal(number: u64) -> (text: String)
    ensures
        text@ == decimal_digits(number as nat),
    decreases number,
{
    if number < 10 {
        String::from_str(digit_text(number))
    } else {
        let mut text = decimal(number / 10);
        text.append(digit_text(number % 10));
        assert(text@ =~= decimal_digits(number as nat));
        text
    }
}

/// Copies an optional text into a string of its own.
pub fn owned(text: Option<&str>) -> (string: Option<String>)
    ensures
        optional_text(string) == match text {
            Some(text) => Some(text@),
            None => None,
        },
{
    match text {
        Some(text) => Some(String::from_str(text)),
        None => None,
    }
}

} // verus!
