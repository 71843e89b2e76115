//! Duplicate suppression and the posting cycle.
//!
//! A run posts the fresh report unless it equals the last report posted; then
//! it posts a short substitute with a random tail instead, since the service
//! refuses identical posts. Only real reports are remembered.

use vstd::prelude::*;
use vstd::string::*;
use rand::distributions::DistString;
use crate::clock::{display_text, Timestamp};
use crate::error::Error;
use crate::log::{push_to_log, Log};

verus! {

/// The number of random characters at the end of a substitute post.
pub const SUFFIX_LEN: usize = 16;

/// Whether `c` is an ASCII letter or digit.
pub open spec fn is_alphanumeric(c: char) -> bool {
    ('A' <= c && c <= 'Z') || ('a' <= c && c <= 'z') || ('0' <= c && c <= '9')
}

/// Whether `s` is a valid random tail: sixteen ASCII letters and digits.
pub open spec fn is_suffix(s: Seq<char>) -> bool {
    &&& s.len() == SUFFIX_LEN
    &&& forall|i: int| 0 <= i < s.len() ==> is_alphanumeric(#[trigger] s[i])
}

/// The substitute post with the given tail.
pub open spec fn substitute_text(suffix: Seq<char>) -> Seq<char> {
    "Same as before. "@ + suffix
}

/// Whether `content` is what the snapshot holds. An absent snapshot holds
/// nothing.
pub open spec fn is_same(snapshot: Option<Seq<char>>, content: Seq<char>) -> bool {
    snapshot == Some(content)
}

/// The snapshot after `content` was saved.
pub open spec fn saved(content: Seq<char>) -> Option<Seq<char>> {
    Some(content)
}

/// The text submitted for `report`: the report itself unless the snapshot
/// holds it already, else the substitute ending in `suffix`.
pub open spec fn text_to_post(
    snapshot: Option<Seq<char>>,
    report: Seq<char>,
    suffix: Seq<char>,
) -> Seq<char> {
    if is_same(snapshot, report) {
        substitute_text(suffix)
    } else {
        report
    }
}

/// The snapshot after `actual` was submitted successfully: unchanged where
/// the report was a duplicate, else what was submitted.
pub open spec fn snapshot_after(
    snapshot: Option<Seq<char>>,
    duplicate: bool,
    actual: Seq<char>,
) -> Option<Seq<char>> {
    if duplicate {
        snapshot
    } else {
        saved(actual)
    }
}

/// The line logged when submitting a post failed.
pub open spec fn failure_line(text_supposed_to: Seq<char>) -> Seq<char> {
    "Tweet content supposed to be:\n "@ + text_supposed_to + "\n"@
}

/// `rand::distributions::DistString::sample_string` on `Alphanumeric` with
/// the thread-local generator: `len` characters, each drawn from the ASCII
/// letters and digits. Which ones is left open.
#[verifier::external_body]
fn sample_alphanumeric(len: usize) -> (s: String)
    ensures
        s@.len() == len,
        forall|i: int| 0 <= i < s@.len() ==> is_alphanumeric(#[trigger] s@[i]),
{
    rand::distributions::Alphanumeric.sample_string(&mut rand::thread_rng(), len)
}

/// The last report that was posted, if there is one.
#[derive(Debug)]
pub struct PreviousTweet {
    content: Option<String>,
}

impl View for PreviousTweet {
    type V = Option<Seq<char>>;

    closed spec fn view(&self) -> Option<Seq<char>> {
        match self.content {
            Some(text) => Some(text@),
            None => None,
        }
    }
}

impl PreviousTweet {
    /// The snapshot as it was found: the text of the snapshot file, or `None`
    /// where no file exists.
    pub fn new(content: Option<String>) -> (previous: PreviousTweet)
        ensures
            previous@ == match content {
                Some(text) => Some(text@),
                None => None,
            },
    {
        PreviousTweet { content }
    }

    /// The remembered text, if any.
    pub fn content(&self) -> (content: Option<&String>)
        ensures
            self@ == match content {
                Some(text) => Some(text@),
                None => None,
            },
    {
        self.content.as_ref()
    }
}

/// Whether `content` is exactly the remembered report. With nothing
/// remembered, nothing is a duplicate.
pub fn is_same_as_previous_tweet(previous: &PreviousTweet, content: &str) -> (same: bool)
    ensures
        same == is_same(previous@, content@),
{
    match &previous.content {
        Some(old_content) => {
            let candidate = String::from_str(content);
            *old_content == candidate
        },
        None => false,
    }
}

/// Remembers `content` in place of whatever was remembered before.
pub fn save_as_previous_tweet(previous: &mut PreviousTweet, content: &str)
    ensures
        final(previous)@ == saved(content@),
{
    previous.content = Some(String::from_str(content));
}

/// Saving is idempotent with respect to the check: right after `content`
/// was saved, `content` is found to be a duplicate, and no other text is.
pub proof fn lemma_saved_text_is_duplicate(content: Seq<char>, candidate: Seq<char>)
    ensures
        is_same(saved(content), content),
        is_same(saved(content), candidate) <==> candidate == content,
{
}

/// A fresh random tail for a substitute post.
pub fn rand_alphanumeric() -> (s: String)
    ensures
        is_suffix(s@),
{
    sample_alphanumeric(SUFFIX_LEN)
}

/// The substitute post that ends in `suffix`.
pub fn substitute(suffix: &str) -> (text: String)
    ensures
        text@ == substitute_text(suffix@),
{
    String::from_str("Same as before. ").concat(suffix)
}

/// A post that has been decided on but not yet confirmed by the service.
#[derive(Debug)]
pub struct Posting {
    text_supposed_to: String,
    text_actual: String,
    duplicate: bool,
}

impl Posting {
    /// The report this run computed.
    pub closed spec fn supposed(&self) -> Seq<char> {
        self.text_supposed_to@
    }

    /// The text that is submitted.
    pub closed spec fn actual(&self) -> Seq<char> {
        self.text_actual@
    }

    /// Whether the report equalled the remembered one when the post was
    /// decided on.
    pub closed spec fn duplicate(&self) -> bool {
        self.duplicate
    }

    /// The report this run computed.
    pub fn text_supposed_to(&self) -> (text: &String)
        ensures
            text@ == self.supposed(),
    {
        &self.text_supposed_to
    }

    /// The text to submit.
    pub fn text_actual(&self) -> (text: &String)
        ensures
            text@ == self.actual(),
    {
        &self.text_actual
    }

    /// Whether the report was a duplicate.
    pub fn is_duplicate(&self) -> (b: bool)
        ensures
            b == self.duplicate(),
    {
        self.duplicate
    }
}

/// Decides what to submit for the report `text_supposed_to`, given the tail
/// to use should a substitute be needed: the report itself unless it is the
/// remembered one, else the substitute ending in `suffix`.
pub fn post_with_suffix(
    previous: &PreviousTweet,
    text_supposed_to: String,
    suffix: &str,
) -> (posting: Posting)
    ensures
        posting.supposed() == text_supposed_to@,
        posting.duplicate() == is_same(previous@, text_supposed_to@),
        posting.actual() == text_to_post(previous@, text_supposed_to@, suffix@),
{
    let duplicate = is_same_as_previous_tweet(previous, text_supposed_to.as_str());
    let text_actual = if duplicate {
        substitute(suffix)
    } else {
        text_supposed_to.clone()
    };
    Posting { text_supposed_to, text_actual, duplicate }
}

/// Decides what to submit for the report `text_supposed_to`: the report
/// itself unless it is the remembered one, else a substitute with a fresh
/// random tail.
pub fn post(previous: &PreviousTweet, text_supposed_to: String) -> (posting: Posting)
    ensures
        posting.supposed() == text_supposed_to@,
        posting.duplicate() == is_same(previous@, text_supposed_to@),
        exists|suffix: Seq<char>|
            is_suffix(suffix) && posting.actual() == #[trigger] text_to_post(
                previous@,
                text_supposed_to@,
                suffix,
            ),
{
    if is_same_as_previous_tweet(previous, text_supposed_to.as_str()) {
        let suffix = rand_alphanumeric();
        post_with_suffix(previous, text_supposed_to, suffix.as_str())
    } else {
        let posting = post_with_suffix(previous, text_supposed_to, "");
        proof {
            let unused = Seq::new(SUFFIX_LEN as nat, |i: int| 'a');
            assert(is_suffix(unused));
            assert(posting.actual() == text_to_post(previous@, text_supposed_to@, unused));
        }
        posting
    }
}

/// Finishes the cycle once the service has answered. `outcome` holds the
/// service's response on success and its failure otherwise; `now` is the time
/// of the answer.
///
/// On failure the intended report is logged and the failure returned; the
/// snapshot stays. On success the submitted text is remembered unless the
/// report was a duplicate, and the time and the response are logged.
pub fn posted(
    posting: &Posting,
    outcome: Result<String, String>,
    now: &Timestamp,
    previous: &mut PreviousTweet,
    log: &mut Log,
) -> (r: Result<(), Error>)
    ensures
        match outcome {
            Ok(output) => {
                &&& r is Ok
                &&& final(previous)@ == snapshot_after(
                    old(previous)@,
                    posting.duplicate(),
                    posting.actual(),
                )
                &&& final(log)@ == old(log)@.push(display_text(now@) + "\n"@).push(
                    output@ + "\n"@,
                )
            },
            Err(e) => {
                &&& r == Err::<(), Error>(Error::TwitterV2(e))
                &&& final(previous)@ == old(previous)@
                &&& final(log)@ == old(log)@.push(failure_line(posting.supposed()))
            },
        },
{
    match outcome {
        Ok(output) => {
            if !posting.duplicate {
                save_as_previous_tweet(previous, posting.text_actual.as_str());
            }
            push_to_log(log, now.to_string().concat("\n"));
            push_to_log(log, output.concat("\n"));
            Ok(())
        },
        Err(e) => {
            let line = String::from_str("Tweet content supposed to be:\n ").concat(
                posting.text_supposed_to.as_str(),
            ).concat("\n");
            push_to_log(log, line);
            Err(Error::TwitterV2(e))
        },
    }
}

/// After a successful cycle the snapshot holds the report of that cycle,
/// whether it was posted itself or replaced by a substitute: a substitute is
/// never remembered, so the next run compares against the report again.
pub proof fn lemma_snapshot_holds_report(
    snapshot: Option<Seq<char>>,
    report: Seq<char>,
    suffix: Seq<char>,
)
    ensures
        snapshot_after(
            snapshot,
            is_same(snapshot, report),
            text_to_post(snapshot, report, suffix),
        ) == saved(report),
        is_same(snapshot, report) ==> snapshot_after(
            snapshot,
            is_same(snapshot, report),
            text_to_post(snapshot, report, suffix),
        ) == snapshot,
{
}

/// What is submitted is either the report or a substitute, and it is the
/// report exactly when the report is no duplicate. A substitute with a valid
/// tail is the fixed words followed by sixteen letters and digits.
pub proof fn lemma_text_to_post(snapshot: Option<Seq<char>>, report: Seq<char>, suffix: Seq<char>)
    requires
        is_suffix(suffix),
    ensures
        !is_same(snapshot, report) ==> text_to_post(snapshot, report, suffix) == report,
        is_same(snapshot, report) ==> {
            let text = text_to_post(snapshot, report, suffix);
            &&& text.len() == "Same as before. "@.len() + SUFFIX_LEN
            &&& text.subrange(0, "Same as before. "@.len() as int) == "Same as before. "@
            &&& forall|i: int|
                "Same as before. "@.len() <= i < text.len() ==> is_alphanumeric(#[trigger] text[i])
        },
{
    if is_same(snapshot, report) {
        let prefix = "Same as before. "@;
        let text = text_to_post(snapshot, report, suffix);
        assert(text.subrange(0, prefix.len() as int) =~= prefix);
        assert forall|i: int| prefix.len() <= i < text.len() implies is_alphanumeric(
            #[trigger] text[i],
        ) by {
            assert(text[i] == suffix[i - prefix.len()]);
        }
    }
}

} // verus!
