//! The size calculator: the exact byte footprint of a poll record and of one
//! stored result, under the length-prefixed encoding the records persist in.
//! The record's storage cannot grow after creation, so the footprint is
//! computed once, with a fixed reserve for the results collection.

use crate::data::{
    MAX_OPTIONS, MAX_OPTION_LEN, MAX_POLL_ID_LEN, MAX_QUESTIONS, MAX_RESULTS, MAX_TOPIC_LEN,
    Question, RESULT_RESERVE_BYTES, UserAnswer,
};
use crate::model::{question_wf, AnswerView, QuestionView, ResultView};
use vstd::prelude::*;

verus! {

/// Encoded size of a list of byte strings, each behind a 4-byte length prefix.
pub open spec fn prefixed_bytes(ss: Seq<Seq<u8>>) -> int
    decreases ss.len(),
{
    if ss.len() == 0 {
        0
    } else {
        prefixed_bytes(ss.drop_last()) + 4 + ss.last().len()
    }
}

/// Encoded size of one question: a one-byte kind tag, a 4-byte option count,
/// and the length-prefixed options.
pub open spec fn question_bytes(q: QuestionView) -> int {
    1 + 4 + prefixed_bytes(q.options)
}

/// Encoded size of a list of questions.
pub open spec fn questions_bytes(qs: Seq<QuestionView>) -> int
    decreases qs.len(),
{
    if qs.len() == 0 {
        0
    } else {
        questions_bytes(qs.drop_last()) + question_bytes(qs.last())
    }
}

/// Encoded size of one answer: a one-byte variant tag, then either one
/// length-prefixed string or a 4-byte count of length-prefixed strings.
pub open spec fn answer_bytes(a: AnswerView) -> int {
    match a {
        AnswerView::Single(s) => 1 + 4 + s.len() as int,
        AnswerView::Multiple(m) => 1 + 4 + prefixed_bytes(m),
    }
}

/// Encoded size of a list of answers.
pub open spec fn answers_bytes(ans: Seq<AnswerView>) -> int
    decreases ans.len(),
{
    if ans.len() == 0 {
        0
    } else {
        answers_bytes(ans.drop_last()) + answer_bytes(ans.last())
    }
}

/// Encoded size of one stored result: the 32-byte identity, a 4-byte answer
/// count with the answers, an 8-byte timestamp and the claimed flag.
pub open spec fn result_footprint(ans: Seq<AnswerView>) -> int {
    32 + 4 + answers_bytes(ans) + 8 + 1
}

/// The full footprint of a newly created poll record: an 8-byte record tag,
/// the fixed-size fields, the length-prefixed identifier and topic, the
/// encoded questions, and the reserve for `MAX_RESULTS` stored results.
pub open spec fn poll_record_bytes(poll_id: Seq<u8>, topic: Seq<u8>, qs: Seq<QuestionView>) -> int {
    8 + 4 + poll_id.len() + 32 + 32 + 8 + 4 + 4 + 1 + 4 + topic.len() + 8 + 4 + questions_bytes(qs)
        + 4 + MAX_RESULTS * RESULT_RESERVE_BYTES
}

pub proof fn lemma_prefixed_bytes_nonneg(ss: Seq<Seq<u8>>)
    ensures
        prefixed_bytes(ss) >= 0,
    decreases ss.len(),
{
    if ss.len() > 0 {
        lemma_prefixed_bytes_nonneg(ss.drop_last());
    }
}

pub proof fn lemma_answer_bytes_nonneg(a: AnswerView)
    ensures
        answer_bytes(a) >= 0,
{
    match a {
        AnswerView::Single(_) => {
        },
        AnswerView::Multiple(m) => {
            lemma_prefixed_bytes_nonneg(m);
        },
    }
}

/// A prefix of the list never encodes to more than the whole list.
pub proof fn lemma_prefixed_bytes_take_le(ss: Seq<Seq<u8>>, i: int)
    requires
        0 <= i <= ss.len(),
    ensures
        prefixed_bytes(ss.take(i)) <= prefixed_bytes(ss),
    decreases ss.len() - i,
{
    if i == ss.len() {
        assert(ss.take(i) =~= ss);
    } else {
        assert(ss.take(i + 1).drop_last() =~= ss.take(i));
        lemma_prefixed_bytes_take_le(ss, i + 1);
    }
}

/// A prefix of the answers never encodes to more than all of them.
pub proof fn lemma_answers_bytes_take_le(ans: Seq<AnswerView>, i: int)
    requires
        0 <= i <= ans.len(),
    ensures
        answers_bytes(ans.take(i)) <= answers_bytes(ans),
    decreases ans.len() - i,
{
    if i == ans.len() {
        assert(ans.take(i) =~= ans);
    } else {
        assert(ans.take(i + 1).drop_last() =~= ans.take(i));
        lemma_answer_bytes_nonneg(ans[i]);
        lemma_answers_bytes_take_le(ans, i + 1);
    }
}

/// Encoded size of a whole results collection.
pub open spec fn results_bytes(rs: Seq<ResultView>) -> int
    decreases rs.len(),
{
    if rs.len() == 0 {
        0
    } else {
        results_bytes(rs.drop_last()) + result_footprint(rs.last().answers)
    }
}

/// The reserve the size calculator sets aside is always enough: results that
/// each fit their per-result bound never outgrow it, however the collection
/// was filled, as long as it respects the storage ceiling.
pub proof fn lemma_reserve_covers_results(rs: Seq<ResultView>)
    requires
        rs.len() <= MAX_RESULTS,
        forall|i: int|
            0 <= i < rs.len() ==> result_footprint((#[trigger] rs[i]).answers)
                <= RESULT_RESERVE_BYTES as int,
    ensures
        results_bytes(rs) <= MAX_RESULTS * RESULT_RESERVE_BYTES,
{
    lemma_results_bytes_bound(rs);
    assert(MAX_RESULTS * RESULT_RESERVE_BYTES == 200000) by (nonlinear_arith)
        requires
            MAX_RESULTS == 1000,
            RESULT_RESERVE_BYTES == 200,
    ;
}

proof fn lemma_results_bytes_bound(rs: Seq<ResultView>)
    requires
        forall|i: int|
            0 <= i < rs.len() ==> result_footprint((#[trigger] rs[i]).answers)
                <= RESULT_RESERVE_BYTES as int,
    ensures
        results_bytes(rs) <= 200 * rs.len(),
    decreases rs.len(),
{
    if rs.len() > 0 {
        assert(forall|i: int|
            0 <= i < rs.drop_last().len() ==> rs.drop_last()[i] == rs[i]);
        lemma_results_bytes_bound(rs.drop_last());
    }
}

/// Whether one stored result holding `answers` fits in the fixed per-result
/// reserve. Submissions whose encoded result would exceed the reserve are
/// refused, since the record's storage cannot grow.
pub fn result_fits(answers: &Vec<UserAnswer>) -> (r: bool)
    ensures
        r == (result_footprint(answers.deep_view()) <= RESULT_RESERVE_BYTES as int),
{
    let ghost all = answers.deep_view();
    let mut acc: usize = 32 + 4 + 8 + 1;
    let mut i: usize = 0;
    while i < answers.len()
        invariant
            0 <= i <= answers.len(),
            all == answers.deep_view(),
            all.len() == answers.len(),
            acc == 45 + answers_bytes(all.take(i as int)),
            acc <= RESULT_RESERVE_BYTES,
        decreases answers.len() - i,
    {
        proof {
            assert(all.take(i + 1).drop_last() =~= all.take(i as int));
            assert(all.take(i + 1).last() == all[i as int]);
            assert(all[i as int] == answers[i as int].deep_view());
        }
        match &answers[i] {
            UserAnswer::Single(s) => {
                if s.len() > RESULT_RESERVE_BYTES || acc + 5 + s.len() > RESULT_RESERVE_BYTES {
                    proof {
                        lemma_answers_bytes_take_le(all, i + 1);
                    }
                    return false;
                }
                acc = acc + 5 + s.len();
            },
            UserAnswer::Multiple(m) => {
                let ghost opts = m.deep_view();
                if acc + 5 > RESULT_RESERVE_BYTES {
                    proof {
                        lemma_prefixed_bytes_nonneg(opts);
                        lemma_answers_bytes_take_le(all, i + 1);
                    }
                    return false;
                }
                let mut inner: usize = 5;
                let mut k: usize = 0;
                while k < m.len()
                    invariant
                        0 <= k <= m.len(),
                        opts == m.deep_view(),
                        opts.len() == m.len(),
                        inner == 5 + prefixed_bytes(opts.take(k as int)),
                        acc + inner <= RESULT_RESERVE_BYTES,
                        acc == 45 + answers_bytes(all.take(i as int)),
                        all.take(i + 1).drop_last() =~= all.take(i as int),
                        all.take(i + 1).last() == all[i as int],
                        all[i as int] == AnswerView::Multiple(opts),
                        all == answers.deep_view(),
                        all.len() == answers.len(),
                        i < answers.len(),
                    decreases m.len() - k,
                {
                    proof {
                        assert(opts.take(k + 1).drop_last() =~= opts.take(k as int));
                        assert(opts.take(k + 1).last() == opts[k as int]);
                        assert(opts[k as int] == m[k as int].deep_view());
                    }
                    let o_len = m[k].len();
                    if o_len > RESULT_RESERVE_BYTES || acc + inner + 4 + o_len > RESULT_RESERVE_BYTES
                    {
                        proof {
                            lemma_prefixed_bytes_take_le(opts, k + 1);
                            lemma_answers_bytes_take_le(all, i + 1);
                        }
                        return false;
                    }
                    inner = inner + 4 + o_len;
                    k = k + 1;
                }
                proof {
                    assert(opts.take(m.len() as int) =~= opts);
                }
                acc = acc + inner;
            },
        }
        i = i + 1;
        proof {
            if acc > RESULT_RESERVE_BYTES {
                lemma_answers_bytes_take_le(all, i as int);
            }
        }
        if acc > RESULT_RESERVE_BYTES {
            return false;
        }
    }
    proof {
        assert(all.take(answers.len() as int) =~= all);
    }
    true
}

/// The exact storage footprint of a newly created poll record, for
/// configuration already inside the creation bounds.
pub fn calculate_poll_account_size(
    poll_id: &Vec<u8>,
    topic: &Vec<u8>,
    questions: &Vec<Question>,
) -> (size: usize)
    requires
        poll_id@.len() <= MAX_POLL_ID_LEN,
        topic@.len() <= MAX_TOPIC_LEN,
        questions.deep_view().len() <= MAX_QUESTIONS,
        forall|i: int|
            0 <= i < questions.deep_view().len() ==> question_wf(
                #[trigger] questions.deep_view()[i],
            ),
    ensures
        size == poll_record_bytes(poll_id@, topic@, questions.deep_view()),
{
    let ghost qs = questions.deep_view();
    let base: usize = 8 + 4 + poll_id.len() + 32 + 32 + 8 + 4 + 4 + 1 + 4 + topic.len() + 8 + 4;
    let mut acc: usize = 0;
    let mut i: usize = 0;
    while i < questions.len()
        invariant
            0 <= i <= questions.len(),
            qs == questions.deep_view(),
            qs.len() == questions.len(),
            qs.len() <= MAX_QUESTIONS,
            forall|j: int| 0 <= j < qs.len() ==> question_wf(#[trigger] qs[j]),
            acc == questions_bytes(qs.take(i as int)),
            // one question encodes to at most 5 + 10 * (4 + 100) bytes
            acc <= 1045 * i,
        decreases questions.len() - i,
    {
        proof {
            assert(qs.take(i + 1).drop_last() =~= qs.take(i as int));
            assert(qs.take(i + 1).last() == qs[i as int]);
            assert(qs[i as int] == questions[i as int].deep_view());
            assert(question_wf(qs[i as int]));
        }
        let q = &questions[i];
        let ghost opts = q.options.deep_view();
        let mut q_size: usize = 5;
        let mut k: usize = 0;
        while k < q.options.len()
            invariant
                0 <= k <= q.options.len(),
                opts == q.options.deep_view(),
                opts.len() == q.options.len(),
                opts.len() <= MAX_OPTIONS,
                forall|j: int| 0 <= j < opts.len() ==> (#[trigger] opts[j]).len() <= MAX_OPTION_LEN,
                q_size == 5 + prefixed_bytes(opts.take(k as int)),
                // one option encodes to at most 4 + 100 bytes
                q_size <= 5 + 104 * k,
            decreases q.options.len() - k,
        {
            proof {
                assert(opts.take(k + 1).drop_last() =~= opts.take(k as int));
                assert(opts.take(k + 1).last() == opts[k as int]);
                assert(opts[k as int] == q.options[k as int].deep_view());
            }
            q_size = q_size + 4 + q.options[k].len();
            k = k + 1;
        }
        proof {
            assert(opts.take(q.options.len() as int) =~= opts);
        }
        acc = acc + q_size;
        i = i + 1;
    }
    proof {
        assert(qs.take(questions.len() as int) =~= qs);
        assert(MAX_RESULTS * RESULT_RESERVE_BYTES == 200000) by (nonlinear_arith)
            requires
                MAX_RESULTS == 1000,
                RESULT_RESERVE_BYTES == 200,
        ;
    }
    base + acc + 4 + MAX_RESULTS * RESULT_RESERVE_BYTES
}

} // verus!
