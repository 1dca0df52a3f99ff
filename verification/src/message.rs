//! Classification of raw numeric message-type codes into renderable text,
//! and the rendering of one transcript line.

use vstd::prelude::*;

verus! {

/// The decimal digit character for one digit value.
pub open spec fn dchar(d: nat) -> char {
    if d == 0 {
        '0'
    } else if d == 1 {
        '1'
    } else if d == 2 {
        '2'
    } else if d == 3 {
        '3'
    } else if d == 4 {
        '4'
    } else if d == 5 {
        '5'
    } else if d == 6 {
        '6'
    } else if d == 7 {
        '7'
    } else if d == 8 {
        '8'
    } else {
        '9'
    }
}

/// The decimal digits of a non-negative number, most significant first.
pub open spec fn dec_digits(n: nat) -> Seq<char>
    decreases n,
{
    if n < 10 {
        seq![dchar(n)]
    } else {
        dec_digits(n / 10).push(dchar(n % 10))
    }
}

/// The decimal text of an integer, with a leading minus sign when negative.
pub open spec fn int_text(n: int) -> Seq<char> {
    if n < 0 {
        seq!['-'] + dec_digits((-n) as nat)
    } else {
        dec_digits(n as nat)
    }
}

/// Appends one decimal digit character.
fn append_digit(out: &mut String, d: u64)
    requires
        d < 10,
    ensures
        final(out)@ == old(out)@ + seq![dchar(d as nat)],
{
    if d == 0 {
        out.append("0");
        proof {
            reveal_strlit("0");
            assert("0"@ =~= seq![dchar(d as nat)]);
        }
    } else if d == 1 {
        out.append("1");
        proof {
            reveal_strlit("1");
            assert("1"@ =~= seq![dchar(d as nat)]);
        }
    } else if d == 2 {
        out.append("2");
        proof {
            reveal_strlit("2");
            assert("2"@ =~= seq![dchar(d as nat)]);
        }
    } else if d == 3 {
        out.append("3");
        proof {
            reveal_strlit("3");
            assert("3"@ =~= seq![dchar(d as nat)]);
        }
    } else if d == 4 {
        out.append("4");
        proof {
            reveal_strlit("4");
            assert("4"@ =~= seq![dchar(d as nat)]);
        }
    } else if d == 5 {
        out.append("5");
        proof {
            reveal_strlit("5");
            assert("5"@ =~= seq![dchar(d as nat)]);
        }
    } else if d == 6 {
        out.append("6");
        proof {
            reveal_strlit("6");
            assert("6"@ =~= seq![dchar(d as nat)]);
        }
    } else if d == 7 {
        out.append("7");
        proof {
            reveal_strlit("7");
            assert("7"@ =~= seq![dchar(d as nat)]);
        }
    } else if d == 8 {
        out.append("8");
        proof {
            reveal_strlit("8");
            assert("8"@ =~= seq![dchar(d as nat)]);
        }
    } else {
        out.append("9");
        proof {
            reveal_strlit("9");
            assert("9"@ =~= seq![dchar(d as nat)]);
        }
    }
}

/// Appends the decimal digits of `n`, most significant first.
fn push_digits(n: u64, out: &mut String)
    ensures
        final(out)@ == old(out)@ + dec_digits(n as nat),
    decreases n,
{
    if n >= 10 {
        push_digits(n / 10, out);
        append_digit(out, n % 10);
        proof {
            assert(old(out)@ + dec_digits((n / 10) as nat) + seq![dchar((n % 10) as nat)]
                =~= old(out)@ + dec_digits(n as nat));
        }
    } else {
        append_digit(out, n);
    }
}

/// Renders an integer code as decimal text.
pub fn render_code(code: i64) -> (r: String)
    ensures
        r@ == int_text(code as int),
{
    let mut s = String::new();
    if code < 0 {
        s.append("-");
        let mag: u64 = (-(code as i128)) as u64;
        push_digits(mag, &mut s);
        proof {
            reveal_strlit("-");
            assert(Seq::<char>::empty() + "-"@ + dec_digits(mag as nat) =~= seq!['-']
                + dec_digits((-(code as int)) as nat));
        }
    } else {
        push_digits(code as u64, &mut s);
        proof {
            assert(Seq::<char>::empty() + dec_digits(code as nat) =~= dec_digits(code as nat));
        }
    }
    s
}

/// Renders a non-negative index as decimal text.
pub fn render_nat(n: u64) -> (r: String)
    ensures
        r@ == dec_digits(n as nat),
{
    let mut s = String::new();
    push_digits(n, &mut s);
    proof {
        assert(Seq::<char>::empty() + dec_digits(n as nat) =~= dec_digits(n as nat));
    }
    s
}

/// The fixed taxonomy of the message classifier: the rendered text for a
/// type code. Text and recall/system-notice codes pass the raw text
/// through; every other known code renders as its label; an unknown code is
/// never dropped but rendered with its numeric value.
pub open spec fn label_spec(code: int, text: Seq<char>) -> Seq<char> {
    if code == 1 || code == 10000 {
        text
    } else if code == 3 {
        "Image"@
    } else if code == 34 {
        "Voice"@
    } else if code == 42 {
        "Share User"@
    } else if code == 43 {
        "Video"@
    } else if code == 47 {
        "Emoji"@
    } else if code == 48 {
        "Location"@
    } else if code == 49 {
        "App Message"@
    } else if code == 50 {
        "Voice Call"@
    } else if code == 10002 {
        "System Message"@
    } else {
        "Unknown message type: "@ + int_text(code)
    }
}

/// Classifies one message-type code: the renderable text per the fixed
/// taxonomy.
pub fn classify(code: i64, text: String) -> (r: String)
    ensures
        r@ == label_spec(code as int, text@),
{
    if code == 1 || code == 10000 {
        text
    } else if code == 3 {
        "Image".to_owned()
    } else if code == 34 {
        "Voice".to_owned()
    } else if code == 42 {
        "Share User".to_owned()
    } else if code == 43 {
        "Video".to_owned()
    } else if code == 47 {
        "Emoji".to_owned()
    } else if code == 48 {
        "Location".to_owned()
    } else if code == 49 {
        "App Message".to_owned()
    } else if code == 50 {
        "Voice Call".to_owned()
    } else if code == 10002 {
        "System Message".to_owned()
    } else {
        let mut s: String = "Unknown message type: ".to_owned();
        let num = render_code(code);
        s.append(num.as_str());
        s
    }
}

/// True when the direction flag marks the local account as the author (the
/// flag is 1 for sent-by-self, 0 for received) and the message is plain
/// text: such entries go to the self-only transcript in addition to the
/// main one.
pub open spec fn self_routed(code: int, direction: int) -> bool {
    code == 1 && direction == 1
}

/// What the `Debug` rendering of chrono's naive UTC date-time is, for a
/// number of seconds since the epoch that chrono accepts. The text depends
/// on the seconds alone.
pub uninterp spec fn naive_time_text(secs: int) -> Seq<char>;

/// Relies on `chrono::DateTime::from_timestamp` and the naive UTC
/// date-time's `Debug` rendering; seconds outside chrono's supported range
/// yield `None`.
#[verifier::external_body]
fn format_timestamp(secs: i64) -> (r: Option<String>)
    ensures
        match r {
            Some(s) => s@ == naive_time_text(secs as int),
            None => true,
        },
{
    chrono::DateTime::from_timestamp(secs, 0).map(|t| format!("{:?}", t.naive_utc()))
}

/// One transcript line: a rendered time, a space, and the message text.
pub open spec fn line_spec(time_text: Seq<char>, text: Seq<char>) -> Seq<char> {
    time_text + " "@ + text
}

/// Joins a rendered time and a message text into one transcript line.
pub fn compose_line(time_text: &str, text: &str) -> (r: String)
    ensures
        r@ == line_spec(time_text@, text@),
{
    let mut s: String = time_text.to_owned();
    s.append(" ");
    s.append(text);
    s
}

/// One classified message, ready to render: its timestamp in seconds since
/// the epoch, its renderable text, and whether it is self-authored text.
pub struct MessageEntry {
    pub timestamp: i64,
    pub text: String,
    pub self_authored: bool,
}

/// Classifies one raw message row.
pub fn classify_row(timestamp: i64, code: i64, direction: i64, text: String) -> (r: MessageEntry)
    ensures
        r.timestamp == timestamp,
        r.text@ == label_spec(code as int, text@),
        r.self_authored == self_routed(code as int, direction as int),
{
    let self_authored = code == 1 && direction == 1;
    let rendered = classify(code, text);
    MessageEntry { timestamp, text: rendered, self_authored }
}

/// Renders the transcript line of a classified message: the date-time text
/// when chrono accepts the timestamp, the raw decimal seconds otherwise.
pub fn render_entry_line(e: &MessageEntry) -> (r: String)
    ensures
        r@ == line_spec(naive_time_text(e.timestamp as int), e.text@) || r@ == line_spec(
            int_text(e.timestamp as int),
            e.text@,
        ),
{
    match format_timestamp(e.timestamp) {
        Some(t) => compose_line(t.as_str(), e.text.as_str()),
        None => {
            let t = render_code(e.timestamp);
            compose_line(t.as_str(), e.text.as_str())
        },
    }
}

} // verus!
