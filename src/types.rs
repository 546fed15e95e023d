//! Questions, answers and their identifiers.

use vstd::prelude::*;

verus! {

/// The identifier of a stored question: never empty.
#[derive(Debug, PartialEq, Eq, Hash)]
pub struct QuestionId(String);

impl QuestionId {
    #[verifier::type_invariant]
    spec fn non_empty(self) -> bool {
        self.0@.len() > 0
    }

    /// An identifier made of `id`, or `None` when `id` is empty.
    pub fn new(id: String) -> (r: Option<QuestionId>)
        ensures
            r is Some <==> id@.len() > 0,
            r matches Some(q) ==> q@ == id@,
    {
        if id.as_str().is_empty() {
            None
        } else {
            Some(QuestionId(id))
        }
    }

    /// The text of the identifier.
    pub fn as_str(&self) -> (r: &str)
        ensures
            r@ == self@,
    {
        self.0.as_str()
    }
}

impl View for QuestionId {
    type V = Seq<char>;

    closed spec fn view(&self) -> Seq<char> {
        self.0@
    }
}

impl Clone for QuestionId {
    fn clone(&self) -> (r: Self)
        ensures
            r@ == self@,
    {
        proof {
            use_type_invariant(self);
        }
        QuestionId(self.0.clone())
    }
}

/// The text of each tag, in order.
pub open spec fn tags_view(tags: Option<Vec<String>>) -> Option<Seq<Seq<char>>> {
    match tags {
        Some(t) => Some(t.deep_view()),
        None => None,
    }
}

fn clone_tags(tags: &Option<Vec<String>>) -> (r: Option<Vec<String>>)
    ensures
        tags_view(r) == tags_view(*tags),
{
    match tags {
        Some(t) => {
            let c = t.clone();
            assert(c.deep_view() =~= t.deep_view()) by {
                assert forall|i: int| 0 <= i < t.len() implies c[i]@ == t[i]@ by {
                    assert(cloned::<String>(t[i], c[i]));
                }
            }
            Some(c)
        },
        None => None,
    }
}

/// A question as the store holds it.
#[derive(Debug)]
pub struct Question {
    pub id: QuestionId,
    pub title: String,
    pub content: String,
    pub tags: Option<Vec<String>>,
}

/// The text of each part of a question.
pub struct QuestionView {
    pub id: Seq<char>,
    pub title: Seq<char>,
    pub content: Seq<char>,
    pub tags: Option<Seq<Seq<char>>>,
}

impl View for Question {
    type V = QuestionView;

    open spec fn view(&self) -> QuestionView {
        QuestionView {
            id: self.id@,
            title: self.title@,
            content: self.content@,
            tags: tags_view(self.tags),
        }
    }
}

impl Clone for Question {
    fn clone(&self) -> (r: Self)
        ensures
            r@ == self@,
    {
        Question {
            id: self.id.clone(),
            title: self.title.clone(),
            content: self.content.clone(),
            tags: clone_tags(&self.tags),
        }
    }
}

/// The text of a sequence of questions.
pub open spec fn question_views(qs: Seq<Question>) -> Seq<QuestionView> {
    qs.map_values(|q: Question| q@)
}

/// A question that has no identifier yet.
#[derive(Debug)]
pub struct NewQuestion {
    pub title: String,
    pub content: String,
    pub tags: Option<Vec<String>>,
}

/// The identifier of a stored answer.
#[derive(Debug, PartialEq, Eq, Hash)]
pub struct AnswerId(pub String);

impl Clone for AnswerId {
    fn clone(&self) -> (r: Self)
        ensures
            r.0@ == self.0@,
    {
        AnswerId(self.0.clone())
    }
}

/// An answer to the question `question_id`.
#[derive(Debug)]
pub struct Answer {
    pub id: AnswerId,
    pub question_id: QuestionId,
    pub content: String,
}

/// The text of each part of an answer.
pub struct AnswerView {
    pub id: Seq<char>,
    pub question_id: Seq<char>,
    pub content: Seq<char>,
}

impl View for Answer {
    type V = AnswerView;

    open spec fn view(&self) -> AnswerView {
        AnswerView { id: self.id.0@, question_id: self.question_id@, content: self.content@ }
    }
}

impl Clone for Answer {
    fn clone(&self) -> (r: Self)
        ensures
            r@ == self@,
    {
        Answer {
            id: self.id.clone(),
            question_id: self.question_id.clone(),
            content: self.content.clone(),
        }
    }
}

} // verus!
