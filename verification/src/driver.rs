//! The driver loop's decisions as a state machine. The caller that owns the
//! transport fetches one page per `Fetching` state, hands the body to
//! `step`, performs the returned effect, and continues from the returned
//! state; a `Done` state means no further fetch.

use vstd::prelude::*;

use crate::json::{field_val, Json};
use crate::output::{line_parts, render_line};
use crate::page::{
    all_complete, cursor_of, data_of, first_incomplete, process_page, PageOutcome,
};
use crate::record::{
    filter, first_failure, json_keep, language_key, name_key, record_matches, title_key,
    RecordError,
};

verus! {

/// The driver's state: about to fetch the page behind `cursor` (`None`
/// meaning the base query), or finished.
pub enum DriverState {
    Fetching { cursor: Option<String> },
    Done,
}

/// The state, over plain character sequences.
pub enum StateModel {
    Fetching { cursor: Option<Seq<char>> },
    Done,
}

impl View for DriverState {
    type V = StateModel;

    open spec fn view(&self) -> StateModel {
        match self {
            DriverState::Fetching { cursor } => StateModel::Fetching {
                cursor: cursor.deep_view(),
            },
            DriverState::Done => StateModel::Done,
        }
    }
}

pub open spec fn initial_model() -> StateModel {
    StateModel::Fetching { cursor: None }
}

/// The state the driver starts in: fetching, with no cursor yet.
pub fn initial_state() -> (r: DriverState)
    ensures
        r@ == initial_model(),
{
    DriverState::Fetching { cursor: None }
}

/// Where one page body takes the driver: a finished driver stays finished;
/// a fetching driver follows the page's cursor, and stops when the page has
/// no result array, a malformed record, or no cursor.
pub open spec fn spec_next(m: StateModel, page: Json) -> StateModel {
    match m {
        StateModel::Done => StateModel::Done,
        StateModel::Fetching { .. } => match data_of(page) {
            None => StateModel::Done,
            Some(items) => if !all_complete(items) {
                StateModel::Done
            } else {
                match cursor_of(page) {
                    None => StateModel::Done,
                    Some(c) => StateModel::Fetching { cursor: Some(c) },
                }
            },
        },
    }
}

/// What the caller is to do after one step.
pub enum StepEffect {
    /// Write these lines, one per surviving record, then go on per the
    /// returned state.
    Print { lines: Vec<String> },
    /// The page had no result array: stop the whole run as a success.
    ExitOk,
    /// A raw object could not become a record: stop the run as a failure.
    ExitErr { error: RecordError },
}

/// The output line of one raw object, read through its fields.
pub open spec fn json_line(j: Json) -> Seq<char> {
    line_parts(field_val(j, language_key()), field_val(j, name_key()), field_val(j, title_key()))
}

/// The lines one result array produces: one per object whose folded title
/// holds the keyword, in array order.
pub open spec fn lines_of(items: Seq<Json>) -> Seq<Seq<char>>
    decreases items.len(),
{
    if items.len() == 0 {
        Seq::empty()
    } else {
        let rest = lines_of(items.drop_last());
        if json_keep(items.last()) {
            rest.push(json_line(items.last()))
        } else {
            rest
        }
    }
}

/// One driver step on one fetched page body: decide the effect and the next
/// state. No result array means a successful stop; a malformed record means
/// a failing stop; otherwise the surviving records' lines are printed and
/// the page's cursor decides whether the driver fetches again.
pub fn step(state: DriverState, page: &Json) -> (r: (DriverState, StepEffect))
    requires
        state is Fetching,
    ensures
        r.0@ == spec_next(state@, *page),
        r.1 is ExitOk <==> data_of(*page) is None,
        data_of(*page) matches Some(items) ==> if all_complete(items) {
            r.1 matches StepEffect::Print { lines } && lines.deep_view() == lines_of(items)
        } else {
            r.1 == (StepEffect::ExitErr {
                error: first_failure(items[first_incomplete(items)]),
            })
        },
{
    match process_page(page) {
        PageOutcome::EndOfData => (DriverState::Done, StepEffect::ExitOk),
        PageOutcome::BadRecord { error } => (DriverState::Done, StepEffect::ExitErr { error }),
        PageOutcome::Batch { records, cursor } => {
            let ghost items: Seq<Json> = match data_of(*page) {
                Some(it) => it,
                None => Seq::empty(),
            };
            let n = records.len();
            let mut lines: Vec<String> = Vec::new();
            let mut k: usize = 0;
            proof {
                assert(items.take(0) =~= Seq::<Json>::empty());
            }
            while k < n
                invariant
                    k <= n,
                    n == records@.len(),
                    n == items.len(),
                    all_complete(items),
                    forall|m: int|
                        0 <= m < n ==> record_matches(#[trigger] records@[m], items[m]),
                    lines.deep_view() == lines_of(items.take(k as int)),
                decreases n - k,
            {
                let ghost old_lines = lines.deep_view();
                if filter(&records[k]) {
                    let line = render_line(&records[k]);
                    lines.push(line);
                }
                proof {
                    assert(items.take(k as int + 1).drop_last() =~= items.take(k as int));
                    assert(items.take(k as int + 1).last() == items[k as int]);
                    assert(field_val(items[k as int], title_key()) == records@[k as int].title@);
                    assert(field_val(items[k as int], language_key()) == records@[
                        k as int
                    ].language@);
                    assert(field_val(items[k as int], name_key()) == records@[
                        k as int
                    ].display_name@);
                    if json_keep(items[k as int]) {
                        assert(lines.deep_view() =~= old_lines.push(json_line(items[k as int])));
                    }
                }
                k += 1;
            }
            proof {
                assert(items.take(n as int) =~= items);
            }
            let next = match cursor {
                None => DriverState::Done,
                Some(c) => DriverState::Fetching { cursor: Some(c) },
            };
            (next, StepEffect::Print { lines })
        },
    }
}

/// The loop fetches exactly as long as cursors keep coming: from the start,
/// a first page that yields its records and a continuation cursor leaves
/// the driver fetching, a second page without a cursor finishes it, and a
/// finished driver never fetches again — two such pages mean exactly two
/// fetches.
pub proof fn lemma_cursor_drives_loop(p1: Json, p2: Json)
    requires
        data_of(p1) matches Some(items) && all_complete(items),
        cursor_of(p1) is Some,
        cursor_of(p2) is None,
    ensures
        spec_next(initial_model(), p1) is Fetching,
        spec_next(spec_next(initial_model(), p1), p2) is Done,
        forall|p: Json| spec_next(StateModel::Done, p) == StateModel::Done,
{
    assert forall|p: Json| spec_next(StateModel::Done, p) == StateModel::Done by {}
}

} // verus!
