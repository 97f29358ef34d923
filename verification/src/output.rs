//! The tagged lines that the daemon and the standalone commands write to
//! standard output, such as "[console] ..." or "[log 1.234] var=value".
use vstd::prelude::*;
use crate::text::{decimal, digit_char, push_char, push_decimal};
use crate::value::{format_value, Value};

verus! {

/// Tag prefixes for output lines.
#[derive(Clone, Copy, Debug, PartialEq, Eq)]
pub enum Tag {
    Console,
    /// Log data; carries the Crazyflie's timestamp of the data in
    /// milliseconds, written as seconds with three decimals.
    Log(u32),
    Status,
    Flash,
    Error,
    Recover,
}

/// The three decimals of a millisecond count below 1000.
pub open spec fn three_digits(m: nat) -> Seq<char> {
    seq![digit_char(m / 100), digit_char((m / 10) % 10), digit_char(m % 10)]
}

/// Seconds with three decimals for a timestamp in milliseconds.
pub open spec fn seconds_text(ms: nat) -> Seq<char> {
    decimal(ms / 1000) + seq!['.'] + three_digits(ms % 1000)
}

impl Tag {
    /// The bracketed label of the tag.
    pub open spec fn label_spec(&self) -> Seq<char> {
        match self {
            Tag::Console => "[console]"@,
            Tag::Log(ms) => "[log "@ + seconds_text(*ms as nat) + "]"@,
            Tag::Status => "[status]"@,
            Tag::Flash => "[flash]"@,
            Tag::Error => "[error]"@,
            Tag::Recover => "[recover]"@,
        }
    }

    /// The bracketed label of the tag.
    pub fn label(&self) -> (s: String)
        ensures
            s@ == self.label_spec(),
    {
        match self {
            Tag::Console => String::from_str("[console]"),
            Tag::Log(ms) => {
                let mut s = String::from_str("[log ");
                let ghost start = s@;
                push_decimal(&mut s, (*ms / 1000) as u64);
                push_char(&mut s, '.');
                let m = *ms % 1000;
                push_char(&mut s, ((48 + m / 100) as u8) as char);
                push_char(&mut s, ((48 + (m / 10) % 10) as u8) as char);
                push_char(&mut s, ((48 + m % 10) as u8) as char);
                s.append("]");
                assert(s@ =~= start + seconds_text(*ms as nat) + "]"@);
                s
            },
            Tag::Status => String::from_str("[status]"),
            Tag::Flash => String::from_str("[flash]"),
            Tag::Error => String::from_str("[error]"),
            Tag::Recover => String::from_str("[recover]"),
        }
    }
}

/// A tagged output line: the tag's label, a space, then the message.
pub fn tagged_line(tag: Tag, message: &str) -> (s: String)
    ensures
        s@ == tag.label_spec() + " "@ + message@,
{
    let mut s = tag.label();
    s.append(" ");
    s.append(message);
    s
}

/// The message of a log line for one variable: "name=value".
pub fn log_entry(variable: &str, value: &Value) -> (s: String)
    ensures
        s@ == variable@ + "="@ + value.text(),
{
    let mut s = String::from_str(variable);
    s.append("=");
    let v = format_value(value);
    s.append(v.as_str());
    s
}

/// The message of a log line for one sample: the "name=value" entries of
/// its variables, separated by single spaces.
pub open spec fn log_sample_text(entries: Seq<(String, Value)>) -> Seq<char>
    decreases entries.len(),
{
    if entries.len() == 0 {
        Seq::empty()
    } else if entries.len() == 1 {
        entries[0].0@ + "="@ + entries[0].1.text()
    } else {
        log_sample_text(entries.drop_last()) + " "@ + entries.last().0@ + "="@ + entries.last().1.text()
    }
}

/// The message of a log line for one sample, such as
/// "var1=0.5 var2=1.2" (see `log_sample_text`).
pub fn log_sample(entries: &Vec<(String, Value)>) -> (s: String)
    ensures
        s@ == log_sample_text(entries@),
{
    let mut s = String::new();
    let mut i: usize = 0;
    while i < entries.len()
        invariant
            i <= entries.len(),
            s@ == log_sample_text(entries@.subrange(0, i as int)),
        decreases entries.len() - i,
    {
        let ghost prefix = entries@.subrange(0, i + 1);
        assert(prefix.drop_last() =~= entries@.subrange(0, i as int));
        assert(prefix.last() == entries@[i as int]);
        if i > 0 {
            s.append(" ");
        }
        let entry = log_entry(entries[i].0.as_str(), &entries[i].1);
        s.append(entry.as_str());
        proof {
            if i == 0 {
                assert(Seq::<char>::empty() + entry@ =~= log_sample_text(prefix));
            } else {
                assert(s@ =~= log_sample_text(prefix));
            }
        }
        i = i + 1;
    }
    assert(entries@.subrange(0, entries.len() as int) =~= entries@);
    s
}

/// Law: every output line starts with the '[' of its tag, so that the tags
/// can be told apart by the start of a line.
pub proof fn law_tagged_lines_start_with_bracket(tag: Tag, message: Seq<char>)
    ensures
        (tag.label_spec() + " "@ + message)[0] == '[',
{
    reveal_strlit("[console]");
    reveal_strlit("[log ");
    reveal_strlit("[status]");
    reveal_strlit("[flash]");
    reveal_strlit("[error]");
    reveal_strlit("[recover]");
}

/// Law: a log sample of one variable is "name=value"; adding a variable to
/// a sample adds exactly one space and then that variable's "name=value",
/// so a sample of n variables has its n entries separated by single spaces.
pub proof fn law_log_sample_entries(entries: Seq<(String, Value)>, x: (String, Value))
    ensures
        log_sample_text(seq![x]) == x.0@ + "="@ + x.1.text(),
        entries.len() > 0 ==> log_sample_text(entries.push(x)) == log_sample_text(entries) + " "@ + x.0@
            + "="@ + x.1.text(),
        log_sample_text(Seq::<(String, Value)>::empty()) == Seq::<char>::empty(),
{
    assert(entries.push(x).drop_last() == entries);
    assert(entries.push(x).last() == x);
}

/// Law: a log line's tag gives the sample time in seconds with millisecond
/// precision: "[log ", the whole seconds in decimal, '.', three digits that
/// read as the milliseconds past the second, and "]".
pub proof fn law_log_tag_gives_seconds(ms: u32)
    ensures
        ({
            let label = Tag::Log(ms).label_spec();
            let whole = decimal((ms / 1000) as nat);
            let n: int = 5 + whole.len() as int;
            &&& label.subrange(0, 5) == "[log "@
            &&& label.subrange(5, n) == whole
            &&& label[n] == '.'
            &&& label.len() == n + 5
            &&& label[n + 4] == ']'
            &&& forall|k: int| n + 1 <= k < n + 4 ==> '0' <= #[trigger] label[k] <= '9'
            &&& (label[n + 1] as int - 48) * 100 + (label[n + 2] as int - 48) * 10 + (label[n + 3] as int - 48)
                == ms % 1000
        }),
{
    reveal_strlit("[log ");
    reveal_strlit("]");
    let label = Tag::Log(ms).label_spec();
    let whole = decimal((ms / 1000) as nat);
    let n: int = 5 + whole.len() as int;
    let m = (ms % 1000) as nat;
    assert(label =~= "[log "@ + whole + seq!['.'] + three_digits(m) + "]"@);
    assert(label.subrange(0, 5) =~= "[log "@);
    assert(label.subrange(5, n) =~= whole);
    assert(label[n + 1] == digit_char(m / 100));
    assert(label[n + 2] == digit_char((m / 10) % 10));
    assert(label[n + 3] == digit_char(m % 10));
}

} // verus!
