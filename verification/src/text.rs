//! Text that goes into a page: numbers in decimal, and strings with the
//! characters that HTML reserves replaced.

use maud::Render;
use vstd::prelude::*;
use vstd::string::*;

verus! {

/// What stands for one character in HTML text and attribute values: the
/// ampersand, the angle brackets and the double quote become entities, every
/// other character stands for itself.
pub open spec fn escape_char(c: char) -> Seq<char> {
    if c == '&' {
        "&amp;"@
    } else if c == '<' {
        "&lt;"@
    } else if c == '>' {
        "&gt;"@
    } else if c == '"' {
        "&quot;"@
    } else {
        seq![c]
    }
}

/// The parts one after another, as one text.
pub open spec fn concat_all(parts: Seq<Seq<char>>) -> Seq<char>
    decreases parts.len(),
{
    if parts.len() == 0 {
        Seq::empty()
    } else {
        concat_all(parts.drop_last()) + parts.last()
    }
}

/// Taking one more part appends that part to the text of those before it.
pub proof fn lemma_concat_all_step(parts: Seq<Seq<char>>, taken: int)
    requires
        0 <= taken < parts.len(),
    ensures
        concat_all(parts.take(taken + 1)) == concat_all(parts.take(taken)) + parts[taken],
{
    assert(parts.take(taken + 1).drop_last() =~= parts.take(taken));
}

/// A text with each of its characters replaced by what stands for it in HTML.
pub open spec fn escape_html(text: Seq<char>) -> Seq<char> {
    concat_all(text.map_values(|c: char| escape_char(c)))
}

/// `maud::Render::render_to` for `str`: appends the text to the buffer with
/// `&`, `<`, `>` and `"` replaced by `&amp;`, `&lt;`, `&gt;` and `&quot;`, and
/// every other character unchanged.
#[verifier::external_body]
pub(crate) fn push_escaped(buffer: &mut String, text: &str)
    ensures
        final(buffer)@ == old(buffer)@ + escape_html(text@),
{
    text.render_to(buffer)
}

/// The text escaped for HTML, as a string of its own.
pub fn escape(text: &str) -> (escaped: String)
    ensures
        escaped@ == escape_html(text@),
{
    let mut escaped = String::new();
    push_escaped(&mut escaped, text);
    escaped
}

/// The decimal digit for a number below ten.
pub open spec fn digit(d: nat) -> Seq<char> {
    if d == 0 {
        "0"@
    } else if d == 1 {
        "1"@
    } else if d == 2 {
        "2"@
    } else if d == 3 {
        "3"@
    } else if d == 4 {
        "4"@
    } else if d == 5 {
        "5"@
    } else if d == 6 {
        "6"@
    } else if d == 7 {
        "7"@
    } else if d == 8 {
        "8"@
    } else {
        "9"@
    }
}

/// A number in decimal, without sign and without leading zeros.
pub open spec fn decimal(n: nat) -> Seq<char>
    decreases n,
{
    if n < 10 {
        digit(n)
    } else {
        decimal(n / 10) + digit(n % 10)
    }
}

fn digit_text(d: u128) -> (text: &'static str)
    requires
        d < 10,
    ensures
        text@ == digit(d as nat),
{
    if d == 0 {
        "0"
    } else if d == 1 {
        "1"
    } else if d == 2 {
        "2"
    } else if d == 3 {
        "3"
    } else if d == 4 {
        "4"
    } else if d == 5 {
        "5"
    } else if d == 6 {
        "6"
    } else if d == 7 {
        "7"
    } else if d == 8 {
        "8"
    } else {
        "9"
    }
}

/// Writes a number in decimal.
pub fn decimal_string(n: u128) -> (text: String)
    ensures
        text@ == decimal(n as nat),
    decreases n,
{
    if n < 10 {
        String::from_str(digit_text(n))
    } else {
        let mut text = decimal_string(n / 10);
        text.append(digit_text(n % 10));
        text
    }
}

/// Whether a character is one of the ten decimal digits.
pub open spec fn is_digit(c: char) -> bool {
    c == '0' || c == '1' || c == '2' || c == '3' || c == '4' || c == '5' || c == '6' || c == '7'
        || c == '8' || c == '9'
}

/// The value of a digit.
pub open spec fn digit_value(c: char) -> nat {
    if c == '1' {
        1
    } else if c == '2' {
        2
    } else if c == '3' {
        3
    } else if c == '4' {
        4
    } else if c == '5' {
        5
    } else if c == '6' {
        6
    } else if c == '7' {
        7
    } else if c == '8' {
        8
    } else if c == '9' {
        9
    } else {
        0
    }
}

/// The number that a text of digits writes in decimal.
pub open spec fn decimal_value(digits: Seq<char>) -> nat
    decreases digits.len(),
{
    if digits.len() == 0 {
        0
    } else {
        decimal_value(digits.drop_last()) * 10 + digit_value(digits.last())
    }
}

/// A digit below ten is written as the one character that has its value.
pub proof fn lemma_digit(d: nat)
    requires
        d < 10,
    ensures
        digit(d).len() == 1,
        is_digit(digit(d)[0]),
        digit_value(digit(d)[0]) == d,
{
    reveal_strlit("0");
    reveal_strlit("1");
    reveal_strlit("2");
    reveal_strlit("3");
    reveal_strlit("4");
    reveal_strlit("5");
    reveal_strlit("6");
    reveal_strlit("7");
    reveal_strlit("8");
    reveal_strlit("9");
}

/// A number in decimal is a text of digits, and not empty; it starts with a
/// zero only where the number is zero; and read as decimal it gives the
/// number again.
pub proof fn lemma_decimal(n: nat)
    ensures
        decimal(n).len() > 0,
        forall|i: int| 0 <= i < decimal(n).len() ==> is_digit(#[trigger] decimal(n)[i]),
        decimal(n)[0] == '0' <==> n == 0,
        decimal_value(decimal(n)) == n,
    decreases n,
{
    if n < 10 {
        lemma_digit(n);
        assert(decimal(n).drop_last().len() == 0);
        assert(decimal_value(decimal(n).drop_last()) == 0);
    } else {
        lemma_decimal(n / 10);
        lemma_digit(n % 10);
        let front = decimal(n / 10);
        let back = digit(n % 10);
        assert(decimal(n) == front + back);
        assert((front + back).drop_last() =~= front);
        assert((front + back).last() == back[0]);
    }
}

/// What stands for a character in HTML holds neither an angle bracket nor a
/// double quote, and an ampersand only as the start of an entity.
pub proof fn lemma_escape_char(c: char)
    ensures
        forall|i: int|
            0 <= i < escape_char(c).len() ==> {
                let e = #[trigger] escape_char(c)[i];
                e != '<' && e != '>' && e != '"' && (e == '&' ==> i == 0 && escape_char(c).len() > 1)
            },
{
    reveal_strlit("&amp;");
    reveal_strlit("&lt;");
    reveal_strlit("&gt;");
    reveal_strlit("&quot;");
}

/// No text that went through escaping holds an angle bracket or a double
/// quote: whatever the text was, it cannot open or close an element, nor end
/// the attribute value in which it stands.
pub proof fn lemma_escaped_is_inert(text: Seq<char>)
    ensures
        forall|i: int|
            0 <= i < escape_html(text).len() ==> {
                let e = #[trigger] escape_html(text)[i];
                e != '<' && e != '>' && e != '"'
            },
    decreases text.len(),
{
    let parts = text.map_values(|c: char| escape_char(c));
    if text.len() > 0 {
        lemma_escaped_is_inert(text.drop_last());
        lemma_escape_char(text.last());
        assert(parts.drop_last() =~= text.drop_last().map_values(|c: char| escape_char(c)));
        assert(escape_html(text) == escape_html(text.drop_last()) + escape_char(text.last()));
    }
}

} // verus!
