//! From what the request brought back to the text that is shown.
//!
//! A lookup ends in a summary of the first entry or in one of two failures.
//! A failure is kept as a value until the text for the user is asked for.

use vstd::prelude::*;
use crate::entry::{
    entries_read, read_entries, view_of, views, Definition, Meaning, MeaningView, WordEntry,
    WordEntryView,
};
use crate::text::{normalize, normalized};

verus! {

/// What the request for a word brought back.
#[derive(Clone, Debug, PartialEq, Eq)]
pub enum Reply {
    /// The request could not be completed; the text says why.
    Failed(String),
    /// An answer came, but its body could not be read to the end.
    Unreadable,
    /// The body of the answer.
    Body(Vec<u8>),
}

/// Why a lookup gave no summary.
#[derive(Clone, Debug, PartialEq, Eq)]
pub enum LookupError {
    /// The request could not be completed; the text says why.
    Transport(String),
    /// The answer holds nothing that can be shown for the word.
    NotFound,
}

/// A reply as contracts see it.
#[verifier::ext_equal]
pub enum ReplyView {
    Failed(Seq<char>),
    Unreadable,
    Body(Seq<u8>),
}

/// A failure as contracts see it.
#[verifier::ext_equal]
pub enum LookupErrorView {
    Transport(Seq<char>),
    NotFound,
}

impl View for Reply {
    type V = ReplyView;

    open spec fn view(&self) -> ReplyView {
        match *self {
            Reply::Failed(reason) => ReplyView::Failed(reason@),
            Reply::Unreadable => ReplyView::Unreadable,
            Reply::Body(bytes) => ReplyView::Body(bytes@),
        }
    }
}

impl View for LookupError {
    type V = LookupErrorView;

    open spec fn view(&self) -> LookupErrorView {
        match *self {
            LookupError::Transport(reason) => LookupErrorView::Transport(reason@),
            LookupError::NotFound => LookupErrorView::NotFound,
        }
    }
}

/// How a lookup ended, as contracts see it.
pub open spec fn outcome_view(outcome: Result<String, LookupError>) -> Result<
    Seq<char>,
    LookupErrorView,
> {
    match outcome {
        Ok(summary) => Ok(summary@),
        Err(error) => Err(error@),
    }
}

/// The line that shows an example, or nothing where there is none.
pub open spec fn example_line(example: Option<Seq<char>>) -> Seq<char> {
    match example {
        Some(e) => "    Example: '"@ + e + "'\n"@,
        None => Seq::empty(),
    }
}

/// The lines for one meaning: its part of speech with its first definition,
/// then that definition's example. A meaning without a definition has none.
pub open spec fn meaning_lines(m: MeaningView) -> Option<Seq<char>> {
    if m.definitions.len() == 0 {
        None
    } else {
        let first = m.definitions[0];
        Some(
            "("@ + m.part_of_speech + ") "@ + first.definition + "\n"@ + example_line(
                first.example,
            ),
        )
    }
}

/// The lines for a list of meanings, in their order. There are none as soon
/// as one meaning has no definition.
pub open spec fn summary_lines(meanings: Seq<MeaningView>) -> Option<Seq<char>>
    decreases meanings.len(),
{
    if meanings.len() == 0 {
        Some(Seq::empty())
    } else {
        match (summary_lines(meanings.drop_last()), meaning_lines(meanings.last())) {
            (Some(before), Some(lines)) => Some(before + lines),
            _ => None,
        }
    }
}

/// The line that a summary starts with.
pub open spec fn heading(word: Seq<char>) -> Seq<char> {
    "Definitions for "@ + word + ":\n"@
}

/// The summary of the first entry under the heading for `word`, or
/// `NotFound` where there is no entry or one of its meanings has no
/// definition.
pub open spec fn summary_of(word: Seq<char>, entries: Seq<WordEntryView>) -> Result<
    Seq<char>,
    LookupErrorView,
> {
    if entries.len() == 0 {
        Err(LookupErrorView::NotFound)
    } else {
        match summary_lines(entries[0].meanings) {
            Some(lines) => Ok(heading(word) + lines),
            None => Err(LookupErrorView::NotFound),
        }
    }
}

/// How the lookup of `word` ends, given what the request brought back.
pub open spec fn outcome_of(word: Seq<char>, reply: ReplyView) -> Result<
    Seq<char>,
    LookupErrorView,
> {
    match reply {
        ReplyView::Failed(reason) => Err(LookupErrorView::Transport(reason)),
        ReplyView::Unreadable => Err(LookupErrorView::NotFound),
        ReplyView::Body(bytes) => match entries_read(bytes) {
            Some(entries) => summary_of(normalized(word), entries),
            None => Err(LookupErrorView::NotFound),
        },
    }
}

/// Whether the first of `entries` can be shown: there is one, and each of
/// its meanings has a definition.
pub open spec fn can_show(entries: Seq<WordEntryView>) -> bool {
    &&& entries.len() > 0
    &&& forall|i: int|
        0 <= i < entries[0].meanings.len() ==> (#[trigger] entries[0].meanings[i]).definitions.len()
            > 0
}

/// The text that tells the user of a failure. `word` is the word as it was
/// given, not its normal form.
pub open spec fn message_of(error: LookupErrorView, word: Seq<char>) -> Seq<char> {
    match error {
        LookupErrorView::Transport(reason) => "RequestError: Internal request error: "@ + reason,
        LookupErrorView::NotFound => "Couldn't define '"@ + word + "'"@,
    }
}

/// The text that is shown for `word`, given what the request brought back.
pub open spec fn response_of(word: Seq<char>, reply: ReplyView) -> Seq<char> {
    match outcome_of(word, reply) {
        Ok(summary) => summary,
        Err(error) => message_of(error, word),
    }
}

/// The line that shows an example, if there is one.
fn example_text(example: &Option<String>) -> (r: String)
    ensures
        r@ == example_line(view_of(*example)),
{
    match example {
        Some(e) => {
            let mut line = String::from_str("    Example: '");
            line.append(e.as_str());
            line.append("'\n");
            line
        },
        None => String::new(),
    }
}

/// The lines that show one meaning, if it has a definition.
pub fn meaning_text(meaning: &Meaning) -> (r: Option<String>)
    ensures
        view_of(r) == meaning_lines(meaning@),
{
    if meaning.definitions.len() == 0 {
        return None;
    }
    let first: &Definition = &meaning.definitions[0];
    let mut lines = String::from_str("(");
    lines.append(meaning.part_of_speech.as_str());
    lines.append(") ");
    lines.append(first.definition.as_str());
    lines.append("\n");
    let example = example_text(&first.example);
    lines.append(example.as_str());
    Some(lines)
}

/// The lines that show a list of meanings, if each has a definition.
pub fn summarize(meanings: &Vec<Meaning>) -> (r: Option<String>)
    ensures
        view_of(r) == summary_lines(views(meanings@)),
{
    let mut lines = String::new();
    let mut i: usize = 0;
    while i < meanings.len()
        invariant
            i <= meanings@.len(),
            summary_lines(views(meanings@).take(i as int)) == Some(lines@),
        decreases meanings@.len() - i,
    {
        proof {
            let next = views(meanings@).take(i + 1);
            assert(next.drop_last() == views(meanings@).take(i as int));
            assert(next.last() == meanings@[i as int]@);
        }
        match meaning_text(&meanings[i]) {
            Some(text) => {
                lines.append(text.as_str());
            },
            None => {
                proof {
                    lemma_summary_lines_some(views(meanings@));
                    assert(views(meanings@)[i as int].definitions.len() == 0);
                }
                return None;
            },
        }
        i += 1;
    }
    assert(views(meanings@).take(i as int) == views(meanings@));
    Some(lines)
}

/// The summary of the first of `entries` under the heading for `word`, which
/// is taken as it is given.
pub fn compose(word: &str, entries: &Vec<WordEntry>) -> (r: Result<String, LookupError>)
    ensures
        outcome_view(r) == summary_of(word@, views(entries@)),
{
    if entries.len() == 0 {
        return Err(LookupError::NotFound);
    }
    match summarize(&entries[0].meanings) {
        Some(lines) => {
            let mut summary = String::from_str("Definitions for ");
            summary.append(word);
            summary.append(":\n");
            summary.append(lines.as_str());
            Ok(summary)
        },
        None => Err(LookupError::NotFound),
    }
}

/// Ends the lookup of `word` with what the request brought back: the summary,
/// or the reason why there is none.
pub fn lookup(word: &str, reply: &Reply) -> (r: Result<String, LookupError>)
    ensures
        outcome_view(r) == outcome_of(word@, reply@),
{
    match reply {
        Reply::Failed(reason) => Err(LookupError::Transport(reason.clone())),
        Reply::Unreadable => Err(LookupError::NotFound),
        Reply::Body(bytes) => match read_entries(bytes.as_slice()) {
            Some(entries) => {
                let normal = normalize(word);
                compose(normal.as_str(), &entries)
            },
            None => Err(LookupError::NotFound),
        },
    }
}

impl LookupError {
    /// The text that tells the user of this failure to look `word` up.
    pub fn message(&self, word: &str) -> (r: String)
        ensures
            r@ == message_of(self@, word@),
    {
        match self {
            LookupError::Transport(reason) => {
                let mut text = String::from_str("RequestError: Internal request error: ");
                text.append(reason.as_str());
                text
            },
            LookupError::NotFound => {
                let mut text = String::from_str("Couldn't define '");
                text.append(word);
                text.append("'");
                text
            },
        }
    }
}

/// The text to show for `word`, given what the request brought back. It is a
/// text whatever came back.
pub fn respond(word: &str, reply: &Reply) -> (r: String)
    ensures
        r@ == response_of(word@, reply@),
{
    match lookup(word, reply) {
        Ok(summary) => summary,
        Err(error) => error.message(word),
    }
}

/// A list of meanings has lines exactly when each of its meanings has a
/// definition.
pub proof fn lemma_summary_lines_some(meanings: Seq<MeaningView>)
    ensures
        summary_lines(meanings) is Some <==> forall|i: int|
            0 <= i < meanings.len() ==> (#[trigger] meanings[i]).definitions.len() > 0,
    decreases meanings.len(),
{
    if meanings.len() > 0 {
        let before = meanings.drop_last();
        lemma_summary_lines_some(before);
        if summary_lines(meanings) is Some {
            assert forall|i: int| 0 <= i < meanings.len() implies (#[trigger] meanings[i]).definitions.len() > 0 by {
                if i < before.len() {
                    assert(before[i] == meanings[i]);
                }
            }
        } else if meaning_lines(meanings.last()) is Some {
            let i = choose|i: int| 0 <= i < before.len() && !((#[trigger] before[i]).definitions.len() > 0);
            assert(before[i] == meanings[i]);
        }
    }
}

/// A lookup ends in a summary exactly when a body came back that reads as a
/// list of entries of which the first can be shown. It ends in a transport
/// failure exactly when the request failed, and with the reason it failed
/// for; in every other case the word is not found.
pub proof fn lemma_outcome_kinds(word: Seq<char>, reply: ReplyView)
    ensures
        outcome_of(word, reply) is Ok <==> reply is Body && entries_read(reply->Body_0) is Some
            && can_show(entries_read(reply->Body_0)->0),
        outcome_of(word, reply) is Err ==> (outcome_of(word, reply)->Err_0 is Transport
            <==> reply is Failed),
        reply matches ReplyView::Failed(reason) ==> outcome_of(word, reply) == Err::<
            Seq<char>,
            LookupErrorView,
        >(LookupErrorView::Transport(reason)),
{
    if let ReplyView::Body(bytes) = reply {
        if let Some(entries) = entries_read(bytes) {
            if entries.len() > 0 {
                lemma_summary_lines_some(entries[0].meanings);
            }
        }
    }
}

} // verus!
