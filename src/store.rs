//! The in-memory question store.

use vstd::prelude::*;
use crate::error::ApiError;
use crate::numeral::{
    decimal, decimal_string, digits_value, is_u32_text, lemma_decimal_value, parse_u32,
    unsigned_digits,
};
use crate::types::{
    Answer, AnswerId, AnswerView, NewQuestion, Question, QuestionId, QuestionView, question_views,
    tags_view,
};

verus! {

/// The part of `s` that a list request with `limit` and `offset` returns:
/// `offset` entries skipped, then at most `limit` of those that remain.
pub open spec fn window<T>(s: Seq<T>, limit: Option<u32>, offset: u32) -> Seq<T> {
    let start = if offset <= s.len() {
        offset as int
    } else {
        s.len() as int
    };
    let end = match limit {
        Some(l) => if start + l <= s.len() {
            start + l
        } else {
            s.len() as int
        },
        None => s.len() as int,
    };
    s.subrange(start, end)
}

/// The number of entries a list request with `limit` and `offset` returns
/// out of `total`: `min(limit, max(0, total - offset))`, or
/// `max(0, total - offset)` without a limit.
pub open spec fn window_len(total: nat, limit: Option<u32>, offset: u32) -> int {
    let remaining = if offset <= total {
        total - offset
    } else {
        0
    };
    match limit {
        Some(l) => if l <= remaining {
            l as int
        } else {
            remaining
        },
        None => remaining,
    }
}

/// A list request returns `window_len` entries, which are those that follow
/// the first `offset`, in their order in `s`.
pub proof fn law_window_len_and_order<T>(s: Seq<T>, limit: Option<u32>, offset: u32)
    ensures
        window(s, limit, offset).len() == window_len(s.len(), limit, offset),
        forall|i: int|
            0 <= i < window(s, limit, offset).len() ==> #[trigger] window(s, limit, offset)[i]
                == s[offset + i],
{
}

/// Some question in `s` has identifier `id`.
pub open spec fn has_id(s: Seq<QuestionView>, id: Seq<char>) -> bool {
    exists|i: int| 0 <= i < s.len() && (#[trigger] s[i]).id == id
}

/// The position of the question with identifier `id` in `s`.
pub open spec fn index_of(s: Seq<QuestionView>, id: Seq<char>) -> int {
    choose|i: int| 0 <= i < s.len() && (#[trigger] s[i]).id == id
}

/// No two questions in `s` share an identifier.
pub open spec fn ids_unique(s: Seq<QuestionView>) -> bool {
    forall|i: int, j: int| 0 <= i < j < s.len() ==> (#[trigger] s[i]).id != (#[trigger] s[j]).id
}

/// Question `q` with every part but its identifier taken from `given`.
pub open spec fn replaced(q: QuestionView, given: QuestionView) -> QuestionView {
    QuestionView { id: q.id, title: given.title, content: given.content, tags: given.tags }
}

/// With unique identifiers, the question at `i` is the one `index_of` finds.
proof fn lemma_index_of(s: Seq<QuestionView>, id: Seq<char>, i: int)
    requires
        ids_unique(s),
        0 <= i < s.len(),
        s[i].id == id,
    ensures
        index_of(s, id) == i,
{
    let k = index_of(s, id);
    if k < i {
        assert(s[k].id != s[i].id);
    } else if i < k {
        assert(s[i].id != s[k].id);
    }
}

/// `id` is the numeral of a number below `next`.
spec fn issued_below(id: Seq<char>, next: nat) -> bool {
    digits_value(id) < next && decimal(digits_value(id)) == id
}

/// The question identifiers are unique and issued below `next`.
spec fn questions_issued(s: Seq<QuestionView>, next: nat) -> bool {
    &&& ids_unique(s)
    &&& forall|i: int| 0 <= i < s.len() ==> issued_below(#[trigger] s[i].id, next)
}

/// The answer identifiers are unique and issued below `next`.
spec fn answers_issued(s: Seq<AnswerView>, next: nat) -> bool {
    &&& forall|i: int, j: int| 0 <= i < j < s.len() ==> (#[trigger] s[i]).id != (#[trigger] s[j]).id
    &&& forall|i: int| 0 <= i < s.len() ==> issued_below(#[trigger] s[i].id, next)
}

/// What a call into a database comes to: its value, or a
/// `DatabaseQueryError` whatever the driver reported.
pub fn from_database<T, E>(r: Result<T, E>) -> (out: Result<T, ApiError>)
    ensures
        match r {
            Ok(v) => out == Ok::<T, ApiError>(v),
            Err(_) => out matches Err(ApiError::DatabaseQueryError),
        },
{
    match r {
        Ok(v) => Ok(v),
        Err(_) => Err(ApiError::DatabaseQueryError),
    }
}

/// The database key that the text of an identifier names: a non-negative
/// integer. Any other text names no row, which is a `QuestionNotFound`.
pub fn database_key(id: &str) -> (r: Result<u32, ApiError>)
    ensures
        r is Ok <==> is_u32_text(id@),
        match r {
            Ok(k) => k == digits_value(unsigned_digits(id@)),
            Err(e) => e is QuestionNotFound,
        },
{
    match parse_u32(id) {
        Ok(k) => Ok(k),
        Err(_) => Err(ApiError::QuestionNotFound),
    }
}

/// The confirmation that question `id` was deleted.
pub fn deleted_message(id: &str) -> (r: String)
    ensures
        r@ == "question "@ + id@ + " deleted"@,
{
    let mut message = String::new();
    message.append("question ");
    message.append(id);
    message.append(" deleted");
    message
}

/// What a delete in a database comes to, from the number of rows it removed:
/// none is a `QuestionNotFound`, a driver failure a `DatabaseQueryError`.
pub fn deletion_outcome<E>(r: Result<u64, E>) -> (out: Result<(), ApiError>)
    ensures
        match r {
            Ok(n) => if n == 0 {
                out matches Err(ApiError::QuestionNotFound)
            } else {
                out is Ok
            },
            Err(_) => out matches Err(ApiError::DatabaseQueryError),
        },
{
    match r {
        Ok(n) => if n == 0 {
            Err(ApiError::QuestionNotFound)
        } else {
            Ok(())
        },
        Err(_) => Err(ApiError::DatabaseQueryError),
    }
}

/// Questions in the order they were added, with answers beside them.
///
/// Each question and each answer gets the decimal numeral of a counter as its
/// identifier, so identifiers are never reused, not even after a delete.
#[derive(Debug)]
pub struct Store {
    questions: Vec<Question>,
    answers: Vec<Answer>,
    next_question: u64,
    next_answer: u64,
}

impl View for Store {
    type V = Seq<QuestionView>;

    closed spec fn view(&self) -> Seq<QuestionView> {
        question_views(self.questions@)
    }
}

impl Store {
    /// The answers, in the order they were added.
    pub closed spec fn answers(&self) -> Seq<AnswerView> {
        self.answers@.map_values(|a: Answer| a@)
    }

    /// No identifier for another question is left.
    pub closed spec fn question_ids_exhausted(&self) -> bool {
        self.next_question == u64::MAX
    }

    /// No identifier for another answer is left.
    pub closed spec fn answer_ids_exhausted(&self) -> bool {
        self.next_answer == u64::MAX
    }

    /// Identifiers are unique, and every one was issued from its counter.
    pub closed spec fn wf(&self) -> bool {
        &&& questions_issued(self@, self.next_question as nat)
        &&& answers_issued(self.answers(), self.next_answer as nat)
    }

    /// Once question `id` is deleted from a store, no question in it has that
    /// identifier any more: deleting it a second time fails.
    pub proof fn law_delete_twice_fails(&self, id: Seq<char>)
        requires
            self.wf(),
            has_id(self@, id),
        ensures
            !has_id(self@.remove(index_of(self@, id)), id),
    {
        let s = self@;
        let k = index_of(s, id);
        let t = s.remove(k);
        if has_id(t, id) {
            let j = choose|j: int| 0 <= j < t.len() && (#[trigger] t[j]).id == id;
            if j < k {
                assert(s[j].id != s[k].id);
            } else {
                assert(s[k].id != s[j + 1].id);
            }
        }
    }

    /// No two stored questions share an identifier.
    pub proof fn lemma_ids_unique(&self)
        requires
            self.wf(),
        ensures
            ids_unique(self@),
    {
    }

    /// Every stored question has a non-empty identifier.
    pub proof fn lemma_ids_non_empty(&self)
        requires
            self.wf(),
        ensures
            forall|i: int| 0 <= i < self@.len() ==> (#[trigger] self@[i]).id.len() > 0,
    {
        assert forall|i: int| 0 <= i < self@.len() implies (#[trigger] self@[i]).id.len() > 0 by {
            assert(issued_below(self@[i].id, self.next_question as nat));
            lemma_decimal_value(digits_value(self@[i].id));
        }
    }

    /// An empty store.
    pub fn new() -> (r: Store)
        ensures
            r.wf(),
            r@ == Seq::<QuestionView>::empty(),
            r.answers() == Seq::<AnswerView>::empty(),
            !r.question_ids_exhausted(),
            !r.answer_ids_exhausted(),
    {
        let r = Store { questions: Vec::new(), answers: Vec::new(), next_question: 0, next_answer: 0 };
        assert(r@ =~= Seq::<QuestionView>::empty());
        assert(r.answers() =~= Seq::<AnswerView>::empty());
        r
    }

    /// The questions of the window that `limit` and `offset` select, in the
    /// order they were added.
    pub fn get_questions(&self, limit: Option<u32>, offset: u32) -> (r: Vec<Question>)
        ensures
            question_views(r@) == window(self@, limit, offset),
    {
        let len = self.questions.len();
        let start: usize = if (offset as usize) <= len {
            offset as usize
        } else {
            len
        };
        let end: usize = match limit {
            Some(l) => if (l as usize) <= len - start {
                start + l as usize
            } else {
                len
            },
            None => len,
        };
        let mut r: Vec<Question> = Vec::new();
        let mut i: usize = start;
        while i < end
            invariant
                start <= i <= end <= len,
                len == self.questions@.len(),
                r@.len() == i - start,
                forall|k: int| 0 <= k < r@.len() ==> (#[trigger] r@[k])@ == self.questions@[start + k]@,
            decreases end - i,
        {
            let q = self.questions[i].clone();
            r.push(q);
            i = i + 1;
        }
        assert(question_views(r@) =~= window(self@, limit, offset));
        r
    }

    /// Stores `new_question` under a fresh identifier and returns it.
    ///
    /// Fails with `DatabaseQueryError`, changing nothing, only once every
    /// identifier the store can issue has been issued.
    pub fn add_question(&mut self, new_question: NewQuestion) -> (r: Result<Question, ApiError>)
        requires
            old(self).wf(),
        ensures
            final(self).wf(),
            r is Ok <==> !old(self).question_ids_exhausted(),
            match r {
                Ok(q) => {
                    &&& final(self)@ == old(self)@.push(q@)
                    &&& !has_id(old(self)@, q@.id)
                    &&& q@.title == new_question.title@
                    &&& q@.content == new_question.content@
                    &&& q@.tags == tags_view(new_question.tags)
                    &&& final(self).answers() == old(self).answers()
                },
                Err(e) => e is DatabaseQueryError && *final(self) == *old(self),
            },
    {
        if self.next_question == u64::MAX {
            return Err(ApiError::DatabaseQueryError);
        }
        let n = self.next_question;
        let text = decimal_string(n);
        proof {
            lemma_decimal_value(n as nat);
        }
        let id = QuestionId::new(text).unwrap();
        let q = Question {
            id,
            title: new_question.title,
            content: new_question.content,
            tags: new_question.tags,
        };
        let stored = q.clone();
        let ghost before = self@;
        self.questions.push(stored);
        self.next_question = n + 1;
        proof {
            assert(self@ =~= before.push(q@));
            assert forall|i: int| 0 <= i < before.len() implies (#[trigger] before[i]).id != q@.id by {
                assert(issued_below(before[i].id, n as nat));
            }
            assert forall|i: int|
                0 <= i < self@.len() implies issued_below(#[trigger] self@[i].id, self.next_question as nat) by {
                if i < before.len() {
                    assert(issued_below(before[i].id, n as nat));
                }
            }
            assert forall|a: int, b: int| 0 <= a < b < self@.len() implies (#[trigger] self@[a]).id
                != (#[trigger] self@[b]).id by {
                if b < before.len() {
                    assert(before[a].id != before[b].id);
                } else {
                    assert(before[a].id != q@.id);
                }
            }
        }
        Ok(q)
    }

    /// Replaces the title, content and tags of question `id` with those of
    /// `question`, keeping its identifier and place, and returns the result.
    ///
    /// Fails with `QuestionNotFound`, changing nothing, when no question has
    /// identifier `id`.
    pub fn update_question(&mut self, question: Question, id: &QuestionId) -> (r: Result<
        Question,
        ApiError,
    >)
        requires
            old(self).wf(),
        ensures
            final(self).wf(),
            final(self).answers() == old(self).answers(),
            match r {
                Ok(q) => {
                    let i = index_of(old(self)@, id@);
                    &&& has_id(old(self)@, id@)
                    &&& final(self)@ == old(self)@.update(i, replaced(old(self)@[i], question@))
                    &&& q@ == final(self)@[i]
                },
                Err(e) => e is QuestionNotFound && !has_id(old(self)@, id@) && *final(self)
                    == *old(self),
            },
    {
        let n = self.questions.len();
        let mut i: usize = 0;
        while i < n
            invariant
                n == self.questions@.len(),
                i <= n,
                self.wf(),
                *self == *old(self),
                forall|j: int| 0 <= j < i ==> (#[trigger] self@[j]).id != id@,
            decreases n - i,
        {
            if self.questions[i].id.as_str().eq(id.as_str()) {
                let ghost before = self@;
                let updated = Question {
                    id: self.questions[i].id.clone(),
                    title: question.title,
                    content: question.content,
                    tags: question.tags,
                };
                let result = updated.clone();
                self.questions.set(i, updated);
                proof {
                    assert(before[i as int].id == id@);
                    lemma_index_of(before, id@, i as int);
                    assert(self@ =~= before.update(i as int, replaced(before[i as int], question@)));
                    assert forall|a: int, b: int| 0 <= a < b < self@.len() implies (#[trigger] self@[a]).id
                        != (#[trigger] self@[b]).id by {
                        assert(before[a].id != before[b].id);
                    }
                    assert forall|a: int|
                        0 <= a < self@.len() implies issued_below(
                        #[trigger] self@[a].id,
                        self.next_question as nat,
                    ) by {
                        assert(issued_below(before[a].id, self.next_question as nat));
                    }
                }
                return Ok(result);
            }
            i = i + 1;
        }
        Err(ApiError::QuestionNotFound)
    }

    /// Removes question `id`, keeping the others in order.
    ///
    /// Fails with `QuestionNotFound`, changing nothing, when no question has
    /// identifier `id`.
    pub fn delete_question(&mut self, id: &QuestionId) -> (r: Result<(), ApiError>)
        requires
            old(self).wf(),
        ensures
            final(self).wf(),
            final(self).answers() == old(self).answers(),
            match r {
                Ok(()) => has_id(old(self)@, id@) && final(self)@ == old(self)@.remove(
                    index_of(old(self)@, id@),
                ),
                Err(e) => e is QuestionNotFound && !has_id(old(self)@, id@) && *final(self)
                    == *old(self),
            },
    {
        let n = self.questions.len();
        let mut i: usize = 0;
        while i < n
            invariant
                n == self.questions@.len(),
                i <= n,
                self.wf(),
                *self == *old(self),
                forall|j: int| 0 <= j < i ==> (#[trigger] self@[j]).id != id@,
            decreases n - i,
        {
            if self.questions[i].id.as_str().eq(id.as_str()) {
                let ghost before = self@;
                let ghost old_questions = self.questions@;
                self.questions.remove(i);
                proof {
                    assert(before[i as int].id == id@);
                    lemma_index_of(before, id@, i as int);
                    assert(self.questions@ == old_questions.remove(i as int));
                    assert(self@ =~= before.remove(i as int));
                    assert forall|a: int, b: int| 0 <= a < b < self@.len() implies (#[trigger] self@[a]).id
                        != (#[trigger] self@[b]).id by {
                        if a < i {
                            if b < i {
                                assert(before[a].id != before[b].id);
                            } else {
                                assert(before[a].id != before[b + 1].id);
                            }
                        } else {
                            assert(before[a + 1].id != before[b + 1].id);
                        }
                    }
                    assert forall|a: int|
                        0 <= a < self@.len() implies issued_below(
                        #[trigger] self@[a].id,
                        self.next_question as nat,
                    ) by {
                        if a < i {
                            assert(issued_below(before[a].id, self.next_question as nat));
                        } else {
                            assert(issued_below(before[a + 1].id, self.next_question as nat));
                        }
                    }
                }
                return Ok(());
            }
            i = i + 1;
        }
        Err(ApiError::QuestionNotFound)
    }

    /// Stores an answer with `content` to question `question_id` under a
    /// fresh identifier and returns it.
    ///
    /// Fails with `DatabaseQueryError`, changing nothing, only once every
    /// identifier the store can issue to an answer has been issued.
    pub fn add_answer(&mut self, question_id: QuestionId, content: String) -> (r: Result<
        Answer,
        ApiError,
    >)
        requires
            old(self).wf(),
        ensures
            final(self).wf(),
            final(self)@ == old(self)@,
            r is Ok <==> !old(self).answer_ids_exhausted(),
            match r {
                Ok(a) => {
                    &&& final(self).answers() == old(self).answers().push(a@)
                    &&& forall|i: int|
                        0 <= i < old(self).answers().len() ==> (#[trigger] old(self).answers()[i]).id
                            != a@.id
                    &&& a@.question_id == question_id@
                    &&& a@.content == content@
                },
                Err(e) => e is DatabaseQueryError && *final(self) == *old(self),
            },
    {
        if self.next_answer == u64::MAX {
            return Err(ApiError::DatabaseQueryError);
        }
        let n = self.next_answer;
        let id = AnswerId(decimal_string(n));
        proof {
            lemma_decimal_value(n as nat);
        }
        let a = Answer { id, question_id, content };
        let stored = a.clone();
        let ghost before = self.answers();
        self.answers.push(stored);
        self.next_answer = n + 1;
        proof {
            assert(self.answers() =~= before.push(a@));
            assert forall|i: int| 0 <= i < before.len() implies (#[trigger] before[i]).id != a@.id by {
                assert(issued_below(before[i].id, n as nat));
            }
            assert forall|i: int|
                0 <= i < self.answers().len() implies issued_below(
                #[trigger] self.answers()[i].id,
                self.next_answer as nat,
            ) by {
                if i < before.len() {
                    assert(issued_below(before[i].id, n as nat));
                }
            }
            assert forall|x: int, y: int| 0 <= x < y < self.answers().len() implies (#[trigger] self.answers()[x]).id
                != (#[trigger] self.answers()[y]).id by {
                if y < before.len() {
                    assert(before[x].id != before[y].id);
                } else {
                    assert(before[x].id != a@.id);
                }
            }
        }
        Ok(a)
    }
}

} // verus!
