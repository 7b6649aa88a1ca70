//! The texts shown to the user and handed to the summarizer.
use vstd::prelude::*;
use vstd::string::*;

verus! {

/// What `{:?}` writes for a list of strings.
pub uninterp spec fn debug_text(items: Seq<Seq<char>>) -> Seq<char>;

/// The character of the decimal digit `d`.
pub open spec fn digit_char(d: nat) -> char {
    seq!['0', '1', '2', '3', '4', '5', '6', '7', '8', '9'][d as int]
}

/// The decimal digits of `n`, most significant first.
pub open spec fn digits(n: nat) -> Seq<char>
    decreases n,
{
    if n < 10 {
        seq![digit_char(n)]
    } else {
        digits(n / 10).push(digit_char(n % 10))
    }
}

/// The decimal form of `i`, with a leading minus sign when it is negative.
pub open spec fn int_text(i: int) -> Seq<char> {
    if i < 0 {
        seq!['-'] + digits((-i) as nat)
    } else {
        digits(i as nat)
    }
}

/// Relies on `Debug` for `Vec<String>` (`format!("{:?}")`): the list written
/// with each string quoted; the text depends on the strings alone.
#[verifier::external_body]
fn debug_list(items: &Vec<String>) -> (r: String)
    ensures
        r@ == debug_text(items.deep_view()),
{
    format!("{:?}", items)
}

/// The text of the single decimal digit `d`.
fn digit_text(d: u128) -> (r: String)
    requires
        d < 10,
    ensures
        r@ == seq![digit_char(d as nat)],
{
    let s: &str = if d == 0 {
        proof { reveal_strlit("0"); }
        "0"
    } else if d == 1 {
        proof { reveal_strlit("1"); }
        "1"
    } else if d == 2 {
        proof { reveal_strlit("2"); }
        "2"
    } else if d == 3 {
        proof { reveal_strlit("3"); }
        "3"
    } else if d == 4 {
        proof { reveal_strlit("4"); }
        "4"
    } else if d == 5 {
        proof { reveal_strlit("5"); }
        "5"
    } else if d == 6 {
        proof { reveal_strlit("6"); }
        "6"
    } else if d == 7 {
        proof { reveal_strlit("7"); }
        "7"
    } else if d == 8 {
        proof { reveal_strlit("8"); }
        "8"
    } else {
        proof { reveal_strlit("9"); }
        "9"
    };
    let r = String::from_str(s);
    assert(r@ =~= seq![digit_char(d as nat)]);
    r
}

/// The decimal digits of `n`.
fn natural_text(n: u128) -> (r: String)
    ensures
        r@ == digits(n as nat),
    decreases n,
{
    if n < 10 {
        digit_text(n)
    } else {
        let high = natural_text(n / 10);
        let low = digit_text(n % 10);
        let r = high.concat(low.as_str());
        assert(r@ =~= digits(n as nat));
        r
    }
}

/// The decimal form of `n`, with a minus sign when it is negative.
fn decimal(n: i128) -> (r: String)
    ensures
        r@ == int_text(n as int),
{
    if n < 0 {
        let magnitude: u128 = (-(n + 1)) as u128 + 1;
        proof { reveal_strlit("-"); }
        let r = String::from_str("-").concat(natural_text(magnitude).as_str());
        assert(r@ =~= int_text(n as int));
        r
    } else {
        natural_text(n as u128)
    }
}

/// The opening of the request handed to the summarizer; the list of messages follows it.
pub const SUMMARY_REQUEST: &'static str = "Please format these tasks I completed yesterday into a nice summary for my daily standup. If I surround words with **, example: *Team Sync*, I want you to use that in the formatted summary. Here are the tasks: ";

/// Shown when no intent could be made out of the flags.
pub const NO_INTENT_TEXT: &'static str = "Gotta put something";

/// The raw listing of messages, as printed when no summary is asked for.
pub fn listing_text(messages: &Vec<String>) -> (r: String)
    ensures
        r@ == debug_text(messages.deep_view()),
{
    debug_list(messages)
}

/// The request handed to the summarizer: the fixed opening followed by the listing.
pub fn summary_prompt(messages: &Vec<String>) -> (r: String)
    ensures
        r@ == SUMMARY_REQUEST@ + debug_text(messages.deep_view()),
{
    let listing = debug_list(messages);
    String::from_str(SUMMARY_REQUEST).concat(listing.as_str())
}

/// The confirmation printed after recording `message`; `days_back` is how many
/// days before today the record was dated, if it was backdated.
pub fn confirmation(message: &String, days_back: Option<i128>) -> (r: String)
    ensures
        days_back is None ==> r@ == "You did: "@ + message@,
        days_back matches Some(n) ==> r@ == "You did "@ + int_text(n as int) + " days ago: "@
            + message@,
{
    match days_back {
        None => String::from_str("You did: ").concat(message.as_str()),
        Some(n) => {
            let count = decimal(n);
            String::from_str("You did ").concat(count.as_str()).concat(" days ago: ").concat(
                message.as_str(),
            )
        },
    }
}

/// The guidance printed when no intent was given.
pub fn no_intent_text() -> (r: String)
    ensures
        r@ == NO_INTENT_TEXT@,
{
    String::from_str(NO_INTENT_TEXT)
}

} // verus!
