//! What the library needs from outside: the contents of files and the
//! output of commands. The library asks; the answers that the outside has
//! given so far are kept in a journal and taken from it in order. A question
//! that the journal cannot answer yet is left in it as pending.

use crate::text::texts;
use vstd::prelude::*;
use vstd::utf8::{decode_utf8, valid_utf8};

verus! {

/// Decodes `bytes` with `String::from_utf8` of std. The contract claims that
/// the call succeeds exactly on well-formed UTF-8 and yields the characters
/// that the bytes encode.
#[verifier::external_body]
pub(crate) fn decode(bytes: Vec<u8>) -> (text: Option<String>)
    ensures
        match text {
            Some(text) => valid_utf8(bytes@) && text@ == decode_utf8(bytes@),
            None => !valid_utf8(bytes@),
        },
{
    String::from_utf8(bytes).ok()
}

/// Something that only the outside can do.
#[derive(Debug, PartialEq, Eq)]
pub enum Request {
    /// Read the whole file at `path`.
    ReadFile { path: String },
    /// Run `program` with `arguments` and take what it writes to its
    /// standard output.
    Execute { program: String, arguments: Vec<String> },
}

/// What a `Request` stands for.
pub enum RequestView {
    ReadFile { path: Seq<char> },
    Execute { program: Seq<char>, arguments: Seq<Seq<char>> },
}

impl View for Request {
    type V = RequestView;

    open spec fn view(&self) -> RequestView {
        match self {
            Request::ReadFile { path } => RequestView::ReadFile { path: path@ },
            Request::Execute { program, arguments } => RequestView::Execute {
                program: program@,
                arguments: texts(arguments@),
            },
        }
    }
}

/// The outcome of a request: the bytes that were read or written, or why
/// there are none.
#[derive(Debug, PartialEq, Eq)]
pub enum Answer {
    Data(Vec<u8>),
    Failure(String),
}

/// What an `Answer` stands for.
pub enum AnswerView {
    Data(Seq<u8>),
    Failure(Seq<char>),
}

impl View for Answer {
    type V = AnswerView;

    open spec fn view(&self) -> AnswerView {
        match self {
            Answer::Data(bytes) => AnswerView::Data(bytes@),
            Answer::Failure(reason) => AnswerView::Failure(reason@),
        }
    }
}

/// Why a question got no data.
#[derive(Debug, PartialEq, Eq)]
pub enum Interruption {
    /// The journal holds no answer yet; the question is pending.
    Suspended,
    /// The outside could not do what was asked.
    Failed(String),
}

/// What an `Interruption` stands for.
pub enum InterruptionView {
    Suspended,
    Failed(Seq<char>),
}

impl View for Interruption {
    type V = InterruptionView;

    open spec fn view(&self) -> InterruptionView {
        match self {
            Interruption::Suspended => InterruptionView::Suspended,
            Interruption::Failed(reason) => InterruptionView::Failed(reason@),
        }
    }
}

/// The answers of the outside, the number of those that have been taken,
/// and the question that found no answer, if one did.
#[derive(Debug, PartialEq, Eq)]
pub struct Journal {
    pub answers: Vec<Answer>,
    pub position: usize,
    pub pending: Option<Request>,
}

/// What a `Journal` stands for.
pub struct JournalView {
    pub answers: Seq<AnswerView>,
    pub position: nat,
    pub pending: Option<RequestView>,
}

/// What the answers of `answers` stand for.
pub open spec fn answers_view(answers: Seq<Answer>) -> Seq<AnswerView> {
    answers.map_values(|answer: Answer| answer@)
}

/// What an optional request stands for.
pub open spec fn pending_view(pending: Option<Request>) -> Option<RequestView> {
    match pending {
        Some(request) => Some(request@),
        None => None,
    }
}

impl View for Journal {
    type V = JournalView;

    open spec fn view(&self) -> JournalView {
        JournalView {
            answers: answers_view(self.answers@),
            position: self.position as nat,
            pending: pending_view(self.pending),
        }
    }
}

/// What a question yields, and the journal after it.
pub struct Asked<T> {
    pub result: Result<T, InterruptionView>,
    pub journal: JournalView,
}

impl JournalView {
    /// Puts `request` to the journal. While a question is pending, every
    /// question is suspended and the journal stays as it is. Otherwise the
    /// next answer is taken, if there is one; if there is none, the question
    /// becomes the pending one.
    pub open spec fn ask(self, request: RequestView) -> Asked<Seq<u8>> {
        if self.pending is Some {
            Asked { result: Err(InterruptionView::Suspended), journal: self }
        } else if self.position < self.answers.len() {
            Asked {
                result: match self.answers[self.position as int] {
                    AnswerView::Data(bytes) => Ok(bytes),
                    AnswerView::Failure(reason) => Err(InterruptionView::Failed(reason)),
                },
                journal: JournalView { position: self.position + 1, ..self },
            }
        } else {
            Asked {
                result: Err(InterruptionView::Suspended),
                journal: JournalView { pending: Some(request), ..self },
            }
        }
    }

    /// Asks for the text of the file at `path`. Bytes that are no UTF-8 are
    /// a failure.
    pub open spec fn ask_text(self, path: Seq<char>) -> Asked<Seq<char>> {
        let asked = self.ask(RequestView::ReadFile { path });
        Asked {
            result: match asked.result {
                Ok(bytes) => if valid_utf8(bytes) {
                    Ok(decode_utf8(bytes))
                } else {
                    Err(InterruptionView::Failed("stream did not contain valid UTF-8"@))
                },
                Err(interruption) => Err(interruption),
            },
            journal: asked.journal,
        }
    }
}

impl JournalView {
    /// Whether `later` can be this journal after some questions: it holds
    /// the same answers, has given none of them back, and is this journal
    /// where a question is pending here.
    pub open spec fn leads_to(self, later: JournalView) -> bool {
        &&& later.answers == self.answers
        &&& self.position <= later.position
        &&& self.pending is Some ==> later == self
    }
}

/// A question moves the journal forward, if at all.
pub proof fn asking_moves_forward(journal: JournalView, request: RequestView, path: Seq<char>)
    ensures
        journal.leads_to(journal.ask(request).journal),
        journal.leads_to(journal.ask_text(path).journal),
{
}

fn clone_bytes(bytes: &Vec<u8>) -> (copy: Vec<u8>)
    ensures
        copy@ == bytes@,
{
    let mut copy: Vec<u8> = Vec::new();
    let mut i: usize = 0;
    while i < bytes.len()
        invariant
            i <= bytes.len(),
            copy@ == bytes@.take(i as int),
        decreases bytes.len() - i,
    {
        copy.push(bytes[i]);
        i += 1;
    }
    assert(bytes@.take(bytes.len() as int) == bytes@);
    copy
}

impl Journal {
    /// A journal without answers.
    pub fn new() -> (journal: Self)
        ensures
            journal@ == (JournalView { answers: Seq::empty(), position: 0, pending: None }),
    {
        let journal = Journal { answers: Vec::new(), position: 0, pending: None };
        assert(answers_view(journal.answers@) =~= Seq::empty());
        journal
    }

    /// Adds `answer` as the answer to the pending question, and starts over:
    /// no answer is taken, no question is pending.
    pub fn record(&mut self, answer: Answer)
        ensures
            final(self)@ == (JournalView {
                answers: old(self)@.answers.push(answer@),
                position: 0,
                pending: None,
            }),
    {
        self.answers.push(answer);
        self.position = 0;
        self.pending = None;
        assert(answers_view(self.answers@) =~= answers_view(old(self).answers@).push(answer@));
    }

    /// The question that found no answer, if one did.
    pub fn pending(&self) -> (request: &Option<Request>)
        ensures
            pending_view(*request) == self@.pending,
    {
        &self.pending
    }

    /// Puts `request` to the journal.
    pub fn ask(&mut self, request: Request) -> (data: Result<Vec<u8>, Interruption>)
        ensures
            (Asked {
                result: match data {
                    Ok(bytes) => Ok(bytes@),
                    Err(interruption) => Err(interruption@),
                },
                journal: final(self)@,
            }) == old(self)@.ask(request@),
    {
        if self.pending.is_some() {
            Err(Interruption::Suspended)
        } else if self.position < self.answers.len() {
            let at = self.position;
            self.position = at + 1;
            match &self.answers[at] {
                Answer::Data(bytes) => Ok(clone_bytes(bytes)),
                Answer::Failure(reason) => Err(Interruption::Failed(reason.clone())),
            }
        } else {
            self.pending = Some(request);
            Err(Interruption::Suspended)
        }
    }

    /// Asks for the text of the file at `path`.
    pub fn ask_text(&mut self, path: String) -> (text: Result<String, Interruption>)
        ensures
            (Asked {
                result: match text {
                    Ok(text) => Ok(text@),
                    Err(interruption) => Err(interruption@),
                },
                journal: final(self)@,
            }) == old(self)@.ask_text(path@),
    {
        match self.ask(Request::ReadFile { path }) {
            Ok(bytes) => match decode(bytes) {
                Some(text) => Ok(text),
                None => Err(Interruption::Failed("stream did not contain valid UTF-8".to_owned())),
            },
            Err(interruption) => Err(interruption),
        }
    }
}

} // verus!
