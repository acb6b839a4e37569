//! The query task and the marshaling of its outcome.
//!
//! A task is built on the caller's thread, the accessor's raw result is
//! classified on the worker, and the outcome is marshaled back into the value
//! or the rejection that the caller finally observes.

use vstd::prelude::*;
use vstd::string::StringExecFns;
use crate::outcome::ErrorInfo;
use crate::outcome::LookupOutcome;
use crate::outcome::outcome_of;

verus! {

/// The entry handed to the caller when the word is found: the queried word
/// itself, never re-derived from the archive, and the archive's stored
/// definition text.
pub struct MdictEntry {
    pub word: String,
    pub definition: String,
}

/// One deferred word query: the path of the dictionary archive and the word
/// to look up. The task owns its request for its whole lifetime; nothing else
/// reads or mutates it while the query is in flight.
pub struct WordQueryTask {
    mdx_path: String,
    word_to_query: String,
}

/// The fixed prefix of every rejection message, so that callers can detect
/// this failure class by prefix.
pub open spec fn failure_prefix() -> Seq<char> {
    "Failed to query word: "@
}

/// How a resolved value relates to the outcome it marshals, for a query on
/// `word`: a found definition becomes the entry `{ word, definition }`, an
/// absent key becomes the absence value (never a rejection), and a failure
/// becomes a rejection whose message is the fixed prefix followed by the
/// cause.
pub open spec fn resolves_outcome(
    word: Seq<char>,
    out: LookupOutcome,
    res: Result<Option<MdictEntry>, ErrorInfo>,
) -> bool {
    match out {
        LookupOutcome::Found(definition) => (res matches Ok(v) && v matches Some(entry)
            && entry.word@ == word && entry.definition@ == definition@),
        LookupOutcome::NotFound => (res matches Ok(v) && v is None),
        LookupOutcome::Failed(cause) => (res matches Err(rejection)
            && rejection.message@ == failure_prefix() + cause.message@),
    }
}

impl WordQueryTask {
    /// The archive path held by the request.
    pub closed spec fn path_view(&self) -> Seq<char> {
        self.mdx_path@
    }

    /// The word held by the request.
    pub closed spec fn word_view(&self) -> Seq<char> {
        self.word_to_query@
    }

    /// Submission: wrap one `(archive path, word)` request as a unit of
    /// deferred work. Nothing is validated here; the accessor judges the
    /// path when the work actually runs.
    pub fn new(mdx_path: String, word: String) -> (task: WordQueryTask)
        ensures
            task.path_view() == mdx_path@,
            task.word_view() == word@,
    {
        WordQueryTask { mdx_path, word_to_query: word }
    }

    /// The archive path, for the shell that performs the blocking read.
    pub fn mdx_path(&self) -> (path: &str)
        ensures
            path@ == self.path_view(),
    {
        self.mdx_path.as_str()
    }

    /// The word to look up, for the shell that performs the blocking read.
    pub fn word(&self) -> (word: &str)
        ensures
            word@ == self.word_view(),
    {
        self.word_to_query.as_str()
    }

    /// Execution: classify what the dictionary accessor reported for this
    /// task. A definition becomes `Found`, a successful miss becomes
    /// `NotFound`, and any accessor failure is caught as a `Failed` outcome
    /// carrying its cause — it never escapes the worker unconverted.
    pub fn compute(&self, lookup: Result<Option<String>, ErrorInfo>) -> (out: LookupOutcome)
        ensures
            out == outcome_of(lookup),
    {
        match lookup {
            Ok(Some(definition)) => LookupOutcome::Found(definition),
            Ok(None) => LookupOutcome::NotFound,
            Err(cause) => LookupOutcome::Failed(cause),
        }
    }

    /// Resolution: marshal the outcome into what the caller observes. A
    /// found definition is paired with the originally queried word, absence
    /// stays absence, and a failure is rejected under the fixed message
    /// prefix.
    pub fn resolve(&self, output: LookupOutcome) -> (res: Result<Option<MdictEntry>, ErrorInfo>)
        ensures
            resolves_outcome(self.word_view(), output, res),
    {
        match output {
            LookupOutcome::Found(definition) => Ok(
                Some(MdictEntry { word: self.word_to_query.clone(), definition }),
            ),
            LookupOutcome::NotFound => Ok(None),
            LookupOutcome::Failed(cause) => {
                let mut message = String::from_str("Failed to query word: ");
                message.append(cause.message.as_str());
                Err(ErrorInfo { message })
            },
        }
    }
}

/// Whether two raw accessor results report the same thing, compared by
/// content: same shape, same definition text or cause text.
pub open spec fn lookup_eq(
    a: Result<Option<String>, ErrorInfo>,
    b: Result<Option<String>, ErrorInfo>,
) -> bool {
    match (a, b) {
        (Ok(Some(d1)), Ok(Some(d2))) => d1@ == d2@,
        (Ok(None), Ok(None)) => true,
        (Err(c1), Err(c2)) => c1.message@ == c2.message@,
        _ => false,
    }
}

/// Whether two resolved values are ones a caller cannot tell apart: same
/// shape, same entry text or rejection message.
pub open spec fn resolution_eq(
    a: Result<Option<MdictEntry>, ErrorInfo>,
    b: Result<Option<MdictEntry>, ErrorInfo>,
) -> bool {
    match (a, b) {
        (Ok(Some(e1)), Ok(Some(e2))) => e1.word@ == e2.word@ && e1.definition@ == e2.definition@,
        (Ok(None), Ok(None)) => true,
        (Err(r1), Err(r2)) => r1.message@ == r2.message@,
        _ => false,
    }
}

/// Law: when the accessor found a definition for `word`, the query resolves
/// to exactly the entry pairing `word` with that stored definition.
pub proof fn lemma_found_resolution(
    word: Seq<char>,
    lookup: Result<Option<String>, ErrorInfo>,
    res: Result<Option<MdictEntry>, ErrorInfo>,
)
    requires
        lookup matches Ok(v) && v is Some,
        resolves_outcome(word, outcome_of(lookup), res),
    ensures
        res matches Ok(v) && v matches Some(entry) && entry.word@ == word
            && entry.definition@ == lookup->Ok_0->Some_0@,
{
}

/// Law: when the archive was read and the word is absent, the query resolves
/// to the absence value and is never rejected.
pub proof fn lemma_absent_resolution(
    word: Seq<char>,
    lookup: Result<Option<String>, ErrorInfo>,
    res: Result<Option<MdictEntry>, ErrorInfo>,
)
    requires
        lookup matches Ok(v) && v is None,
        resolves_outcome(word, outcome_of(lookup), res),
    ensures
        res matches Ok(v) && v is None,
{
}

/// Law: when the accessor failed, the query is rejected, and the rejection
/// message is the fixed prefix followed by the cause — in particular it
/// begins with the prefix.
pub proof fn lemma_failed_resolution(
    word: Seq<char>,
    lookup: Result<Option<String>, ErrorInfo>,
    res: Result<Option<MdictEntry>, ErrorInfo>,
)
    requires
        lookup matches Err(cause),
        resolves_outcome(word, outcome_of(lookup), res),
    ensures
        res matches Err(rejection)
            && rejection.message@ == failure_prefix() + lookup->Err_0.message@,
        res->Err_0.message@.subrange(0, failure_prefix().len() as int) == failure_prefix(),
{
    assert(res->Err_0.message@.subrange(0, failure_prefix().len() as int) =~= failure_prefix());
}

/// Law (idempotence): two queries for the same word whose accessor runs
/// report the same raw result resolve to values a caller cannot tell apart,
/// whichever tasks carried them and in whatever order they complete.
pub proof fn lemma_resolution_idempotent(
    word: Seq<char>,
    lookup1: Result<Option<String>, ErrorInfo>,
    lookup2: Result<Option<String>, ErrorInfo>,
    res1: Result<Option<MdictEntry>, ErrorInfo>,
    res2: Result<Option<MdictEntry>, ErrorInfo>,
)
    requires
        lookup_eq(lookup1, lookup2),
        resolves_outcome(word, outcome_of(lookup1), res1),
        resolves_outcome(word, outcome_of(lookup2), res2),
    ensures
        resolution_eq(res1, res2),
{
}

} // verus!
