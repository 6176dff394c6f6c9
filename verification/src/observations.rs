//! The append-only history of feature observations.
//!
//! A competitor's value on a feature is never overwritten: a new value
//! supersedes the one in force, so past standings can be reconstructed at any
//! point in time and every change stays recoverable with its source. This
//! module holds the rules over that history; the values themselves are
//! compared and scored by the service around this crate.

use vstd::prelude::*;
use vstd::string::*;
use vstd::utf8::encode_utf8;

use crate::error::AppError;
use crate::text::{
    at_or_before, blank, is_blank, lemma_text_order, precedes, same_text, text_at_or_before,
    text_before,
};

verus! {

/// A feature observation without its value: who, what, where from, and when
/// it applied.
#[derive(Debug, Clone)]
pub struct ObservationRecord {
    pub id: String,
    pub competitor_id: String,
    pub feature_id: String,
    pub source_classification: String,
    pub source_reference: String,
    /// When the value was first observed (RFC 3339, UTC).
    pub observed_at: String,
    /// When the value stopped applying, if a newer value replaced it.
    pub superseded_at: Option<String>,
}

/// The observation is in force at the comparison point: with no point given,
/// it has not been superseded; at a point `at`, it was observed at or before
/// `at` and not superseded until after it.
pub open spec fn in_force(o: ObservationRecord, as_at: Option<&str>) -> bool {
    match as_at {
        None => o.superseded_at is None,
        Some(at) => {
            &&& text_at_or_before(o.observed_at@, at@)
            &&& match o.superseded_at {
                None => true,
                Some(s) => text_before(at@, s@),
            }
        },
    }
}

/// Whether an observation is in force at `as_at` (today when `None`).
/// Timestamps are RFC 3339 in UTC throughout, so lexical ordering is
/// chronological ordering and no parsing is required here.
pub fn in_force_at(observation: &ObservationRecord, as_at: Option<&str>) -> (r: bool)
    ensures
        r == in_force(*observation, as_at),
{
    match as_at {
        None => observation.superseded_at.is_none(),
        Some(at) => {
            if !at_or_before(observation.observed_at.as_str(), at) {
                return false;
            }
            match &observation.superseded_at {
                None => true,
                Some(superseded) => precedes(at, superseded.as_str()),
            }
        },
    }
}

/// The observation is of `feature_id` for `competitor_id`.
pub open spec fn observes(o: ObservationRecord, feature_id: Seq<char>, competitor_id: Seq<char>) -> bool {
    o.feature_id@ == feature_id && o.competitor_id@ == competitor_id
}

/// Observation `i` holds the value compared for the feature and competitor:
/// it is the last of their observations in force at the comparison point.
pub open spec fn is_current(
    s: Seq<ObservationRecord>,
    feature_id: Seq<char>,
    competitor_id: Seq<char>,
    as_at: Option<&str>,
    i: int,
) -> bool {
    &&& 0 <= i < s.len()
    &&& observes(s[i], feature_id, competitor_id)
    &&& in_force(s[i], as_at)
    &&& forall|j: int|
        i < j < s.len() ==> !(observes(#[trigger] s[j], feature_id, competitor_id) && in_force(
            s[j],
            as_at,
        ))
}

/// No observation of the feature for the competitor is in force.
pub open spec fn none_current(
    s: Seq<ObservationRecord>,
    feature_id: Seq<char>,
    competitor_id: Seq<char>,
    as_at: Option<&str>,
) -> bool {
    forall|j: int|
        0 <= j < s.len() ==> !(observes(#[trigger] s[j], feature_id, competitor_id) && in_force(
            s[j],
            as_at,
        ))
}

/// The observation whose value a comparison at `as_at` uses for a feature and
/// competitor: the last one of theirs in force then, or none.
pub fn current_observation(
    observations: &Vec<ObservationRecord>,
    feature_id: &str,
    competitor_id: &str,
    as_at: Option<&str>,
) -> (found: Option<usize>)
    ensures
        match found {
            Some(i) => is_current(observations@, feature_id@, competitor_id@, as_at, i as int),
            None => none_current(observations@, feature_id@, competitor_id@, as_at),
        },
{
    let n = observations.len();
    let mut i: usize = n;
    while i > 0
        invariant
            n == observations@.len(),
            i <= n,
            forall|j: int|
                i <= j < n ==> !(observes(#[trigger] observations@[j], feature_id@, competitor_id@)
                    && in_force(observations@[j], as_at)),
        decreases i,
    {
        i = i - 1;
        let o = &observations[i];
        if same_text(o.feature_id.as_str(), feature_id) && same_text(
            o.competitor_id.as_str(),
            competitor_id,
        ) && in_force_at(o, as_at) {
            return Some(i);
        }
    }
    None
}

/// Today's comparison never uses a superseded value, and a comparison at an
/// earlier point never uses a value first observed after it.
pub proof fn lemma_current_value_is_in_force(
    s: Seq<ObservationRecord>,
    feature_id: Seq<char>,
    competitor_id: Seq<char>,
    as_at: Option<&str>,
    i: int,
)
    requires
        is_current(s, feature_id, competitor_id, as_at, i),
    ensures
        as_at is None ==> s[i].superseded_at is None,
        as_at matches Some(at) ==> !text_before(at@, s[i].observed_at@),
{
    if let Some(at) = as_at {
        crate::text::lemma_not_after_is_at_or_before(
            encode_utf8(s[i].observed_at@),
            encode_utf8(at@),
        );
    }
}

/// The source classifications a competitor value may be recorded from.
pub open spec fn admissible_source(classification: Seq<char>) -> bool {
    ||| classification == "public"@
    ||| classification == "approved_internal"@
    ||| classification == "consented"@
    ||| classification == "licensed"@
}

/// Only four classifications are admissible: public, approved internal,
/// consented and licensed. Special personal information and competitively
/// sensitive information are never admitted, so a value carrying either is
/// refused.
pub proof fn law_only_four_sources_are_admissible(classification: Seq<char>)
    ensures
        admissible_source(classification) ==> classification == "public"@ || classification
            == "approved_internal"@ || classification == "consented"@ || classification
            == "licensed"@,
        !admissible_source("special_personal_information"@),
        !admissible_source("competitively_sensitive"@),
{
    reveal_strlit("public");
    reveal_strlit("approved_internal");
    reveal_strlit("consented");
    reveal_strlit("licensed");
    reveal_strlit("special_personal_information");
    reveal_strlit("competitively_sensitive");
    assert("special_personal_information"@[0] != "public"@[0]);
    assert("special_personal_information"@[0] != "approved_internal"@[0]);
    assert("special_personal_information"@[0] != "consented"@[0]);
    assert("special_personal_information"@[0] != "licensed"@[0]);
    assert("competitively_sensitive"@[0] != "public"@[0]);
    assert("competitively_sensitive"@[0] != "approved_internal"@[0]);
    assert("competitively_sensitive"@[2] != "consented"@[2]);
    assert("competitively_sensitive"@[0] != "licensed"@[0]);
}

/// Checks the provenance of a new competitor value: it must come from a
/// public, approved internal, consented or licensed source, and name that
/// source, so every competitor value carries provenance.
pub fn check_observation_provenance(source_classification: &str, source_reference: &str) -> (checked:
    Result<(), AppError>)
    ensures
        !admissible_source(source_classification@) ==> (checked matches Err(
            AppError::BadRequest(m),
        ) && m@
            == "source_classification must be public, approved_internal, consented or licensed"@),
        admissible_source(source_classification@) && blank(source_reference@) ==> (
        checked matches Err(AppError::BadRequest(m)) && m@
            == "source_reference is required so every competitor value carries provenance"@),
        admissible_source(source_classification@) && !blank(source_reference@) ==> checked is Ok,
{
    if !same_text(source_classification, "public") && !same_text(
        source_classification,
        "approved_internal",
    ) && !same_text(source_classification, "consented") && !same_text(
        source_classification,
        "licensed",
    ) {
        return Err(
            AppError::BadRequest(
                String::from_str(
                    "source_classification must be public, approved_internal, consented or licensed",
                ),
            ),
        );
    }
    if is_blank(source_reference) {
        return Err(
            AppError::BadRequest(
                String::from_str(
                    "source_reference is required so every competitor value carries provenance",
                ),
            ),
        );
    }
    Ok(())
}

fn copy_record(o: &ObservationRecord) -> (r: ObservationRecord)
    ensures
        r == *o,
{
    ObservationRecord {
        id: o.id.clone(),
        competitor_id: o.competitor_id.clone(),
        feature_id: o.feature_id.clone(),
        source_classification: o.source_classification.clone(),
        source_reference: o.source_reference.clone(),
        observed_at: o.observed_at.clone(),
        superseded_at: match &o.superseded_at {
            Some(t) => Some(t.clone()),
            None => None,
        },
    }
}

/// What recording `added` does to earlier observation `before`: if it is the
/// value in force for the same competitor and feature, it is superseded at the
/// moment the new value was observed; otherwise it is kept as it was.
pub open spec fn kept_or_superseded(
    before: ObservationRecord,
    after: ObservationRecord,
    added: ObservationRecord,
) -> bool {
    if observes(before, added.feature_id@, added.competitor_id@) && before.superseded_at is None {
        &&& after.id == before.id
        &&& after.competitor_id == before.competitor_id
        &&& after.feature_id == before.feature_id
        &&& after.source_classification == before.source_classification
        &&& after.source_reference == before.source_reference
        &&& after.observed_at == before.observed_at
        &&& after.superseded_at == Some(added.observed_at)
    } else {
        after == before
    }
}

/// Records a new competitor value. The value in force for that competitor
/// and feature is superseded rather than overwritten, so the change stays in
/// the history as a competitor move.
pub fn record_observation(history: Vec<ObservationRecord>, added: ObservationRecord) -> (updated:
    Vec<ObservationRecord>)
    requires
        added.superseded_at is None,
    ensures
        updated@.len() == history@.len() + 1,
        updated@[history@.len() as int] == added,
        forall|i: int|
            0 <= i < history@.len() ==> kept_or_superseded(
                history@[i],
                #[trigger] updated@[i],
                added,
            ),
{
    let n = history.len();
    let mut updated: Vec<ObservationRecord> = Vec::new();
    let mut i: usize = 0;
    while i < n
        invariant
            n == history@.len(),
            i <= n,
            updated@.len() == i,
            added.superseded_at is None,
            forall|k: int|
                0 <= k < i ==> kept_or_superseded(history@[k], #[trigger] updated@[k], added),
        decreases n - i,
    {
        let o = &history[i];
        if same_text(o.feature_id.as_str(), added.feature_id.as_str()) && same_text(
            o.competitor_id.as_str(),
            added.competitor_id.as_str(),
        ) && o.superseded_at.is_none() {
            updated.push(
                ObservationRecord {
                    id: o.id.clone(),
                    competitor_id: o.competitor_id.clone(),
                    feature_id: o.feature_id.clone(),
                    source_classification: o.source_classification.clone(),
                    source_reference: o.source_reference.clone(),
                    observed_at: o.observed_at.clone(),
                    superseded_at: Some(added.observed_at.clone()),
                },
            );
        } else {
            updated.push(copy_record(o));
        }
        i = i + 1;
    }
    updated.push(added);
    updated
}

/// After a new value is recorded, today's comparison uses exactly that value
/// for its competitor and feature: every earlier value of theirs has been
/// superseded.
pub proof fn lemma_recorded_value_is_current(
    history: Seq<ObservationRecord>,
    updated: Seq<ObservationRecord>,
    added: ObservationRecord,
)
    requires
        added.superseded_at is None,
        updated.len() == history.len() + 1,
        updated[history.len() as int] == added,
        forall|i: int|
            0 <= i < history.len() ==> kept_or_superseded(history[i], #[trigger] updated[i], added),
    ensures
        is_current(updated, added.feature_id@, added.competitor_id@, None, history.len() as int),
        forall|i: int|
            0 <= i < history.len() && observes(
                #[trigger] updated[i],
                added.feature_id@,
                added.competitor_id@,
            ) ==> updated[i].superseded_at is Some,
{
    assert forall|i: int|
        0 <= i < history.len() && observes(
            #[trigger] updated[i],
            added.feature_id@,
            added.competitor_id@,
        ) implies updated[i].superseded_at is Some by {
        assert(kept_or_superseded(history[i], updated[i], added));
    }
}

/// Two observations are of the same competitor and feature.
pub open spec fn same_series(a: ObservationRecord, b: ObservationRecord) -> bool {
    a.feature_id@ == b.feature_id@ && a.competitor_id@ == b.competitor_id@
}

/// Observation `p` comes before observation `q` in time; observations made at
/// the same moment keep the order in which they were given.
pub open spec fn earlier(s: Seq<ObservationRecord>, p: int, q: int) -> bool {
    ||| text_before(s[p].observed_at@, s[q].observed_at@)
    ||| s[p].observed_at@ == s[q].observed_at@ && p < q
}

/// Observation `q` is an earlier value in the same series as observation `c`.
pub open spec fn precedes_in_series(s: Seq<ObservationRecord>, q: int, c: int) -> bool {
    &&& 0 <= q < s.len()
    &&& 0 <= c < s.len()
    &&& q != c
    &&& same_series(s[q], s[c])
    &&& earlier(s, q, c)
}

/// Observation `c` directly replaced observation `p`: `p` is the latest
/// earlier value of the same competitor and feature.
pub open spec fn is_step(s: Seq<ObservationRecord>, p: int, c: int) -> bool {
    &&& precedes_in_series(s, p, c)
    &&& forall|q: int|
        #![trigger precedes_in_series(s, q, c)]
        precedes_in_series(s, q, c) && q != p ==> !earlier(s, p, q)
}

/// The change to observation `c` had happened by the comparison point.
pub open spec fn visible_at(s: Seq<ObservationRecord>, c: int, as_at: Option<&str>) -> bool {
    match as_at {
        None => true,
        Some(at) => !text_before(at@, s[c].observed_at@),
    }
}

proof fn lemma_earlier_order(s: Seq<ObservationRecord>, p: int, q: int, r: int)
    requires
        0 <= p < s.len(),
        0 <= q < s.len(),
        0 <= r < s.len(),
    ensures
        !earlier(s, p, p),
        earlier(s, p, q) ==> !earlier(s, q, p),
        p != q ==> earlier(s, p, q) || earlier(s, q, p),
        earlier(s, p, q) && earlier(s, q, r) ==> earlier(s, p, r),
{
    let a = s[p].observed_at@;
    let b = s[q].observed_at@;
    let c = s[r].observed_at@;
    lemma_text_order(a, b, c);
    lemma_text_order(b, a, c);
    lemma_text_order(a, c, b);
    lemma_text_order(b, c, a);
    lemma_text_order(c, a, b);
}

/// A replaced value has at most one direct successor's predecessor: the
/// value a change replaced is unique.
pub proof fn lemma_step_unique(s: Seq<ObservationRecord>, p: int, p2: int, c: int)
    requires
        is_step(s, p, c),
        is_step(s, p2, c),
    ensures
        p == p2,
{
    if p != p2 {
        lemma_earlier_order(s, p, p2, c);
        assert(precedes_in_series(s, p2, c));
        assert(precedes_in_series(s, p, c));
    }
}

fn is_earlier(s: &Vec<ObservationRecord>, p: usize, q: usize) -> (r: bool)
    requires
        p < s@.len(),
        q < s@.len(),
    ensures
        r == earlier(s@, p as int, q as int),
{
    let a = s[p].observed_at.as_str();
    let b = s[q].observed_at.as_str();
    if precedes(a, b) {
        true
    } else if same_text(a, b) {
        p < q
    } else {
        false
    }
}

fn in_same_series(s: &Vec<ObservationRecord>, p: usize, q: usize) -> (r: bool)
    requires
        p < s@.len(),
        q < s@.len(),
    ensures
        r == same_series(s@[p as int], s@[q as int]),
{
    same_text(s[p].feature_id.as_str(), s[q].feature_id.as_str()) && same_text(
        s[p].competitor_id.as_str(),
        s[q].competitor_id.as_str(),
    )
}

/// The value observation `c` replaced, if any: the latest earlier
/// observation of the same competitor and feature.
pub fn replaced_observation(s: &Vec<ObservationRecord>, c: usize) -> (found: Option<usize>)
    requires
        c < s@.len(),
    ensures
        match found {
            Some(p) => is_step(s@, p as int, c as int),
            None => forall|q: int| !precedes_in_series(s@, q, c as int),
        },
{
    let n = s.len();
    let mut best: Option<usize> = None;
    let mut q: usize = 0;
    while q < n
        invariant
            n == s@.len(),
            c < n,
            q <= n,
            match best {
                Some(b) => {
                    &&& b < q
                    &&& precedes_in_series(s@, b as int, c as int)
                    &&& forall|k: int|
                        0 <= k < q && precedes_in_series(s@, k, c as int) ==> k == b || earlier(
                            s@,
                            k,
                            b as int,
                        )
                },
                None => forall|k: int| 0 <= k < q ==> !precedes_in_series(s@, k, c as int),
            },
        decreases n - q,
    {
        if q != c && in_same_series(s, q, c) && is_earlier(s, q, c) {
            match best {
                None => {
                    best = Some(q);
                },
                Some(b) => {
                    if is_earlier(s, b, q) {
                        proof {
                            assert forall|k: int|
                                0 <= k < q + 1 && precedes_in_series(s@, k, c as int) implies k
                                == q || earlier(s@, k, q as int) by {
                                if k != q {
                                    lemma_earlier_order(s@, k, b as int, q as int);
                                }
                            }
                        }
                        best = Some(q);
                    } else {
                        proof {
                            lemma_earlier_order(s@, b as int, q as int, c as int);
                        }
                    }
                },
            }
        }
        q = q + 1;
    }
    proof {
        if let Some(b) = best {
            assert forall|k: int|
                #![trigger precedes_in_series(s@, k, c as int)]
                precedes_in_series(s@, k, c as int) && k != b implies !earlier(
                s@,
                b as int,
                k,
            ) by {
                lemma_earlier_order(s@, k, b as int, c as int);
            }
        }
    }
    best
}

/// When the change at position `k` of a list of (replaced, replacing) pairs
/// was observed.
pub open spec fn change_time(s: Seq<ObservationRecord>, steps: Seq<(usize, usize)>, k: int) -> Seq<
    char,
> {
    s[steps[k].1 as int].observed_at@
}

/// The changes recorded in the observation history, newest first, as
/// (replaced, replacing) positions: every observation that replaced an
/// earlier value of the same competitor and feature, paired with the value it
/// replaced. With a comparison point, changes observed after it are left out,
/// so an earlier view never shows a move that had not happened yet. Changes
/// observed at the same moment come in no promised order.
pub fn change_steps(s: &Vec<ObservationRecord>, as_at: Option<&str>) -> (steps: Vec<(usize, usize)>)
    ensures
        forall|k: int|
            #![trigger steps@[k]]
            0 <= k < steps@.len() ==> is_step(s@, steps@[k].0 as int, steps@[k].1 as int)
                && visible_at(s@, steps@[k].1 as int, as_at),
        forall|p: int, c: int|
            is_step(s@, p, c) && visible_at(s@, c, as_at) ==> exists|k: int|
                0 <= k < steps@.len() && #[trigger] steps@[k] == (p as usize, c as usize),
        forall|k: int, l: int|
            0 <= k < l < steps@.len() ==> !text_before(
                #[trigger] change_time(s@, steps@, k),
                #[trigger] change_time(s@, steps@, l),
            ),
        forall|k: int, l: int|
            0 <= k < steps@.len() && 0 <= l < steps@.len() && k != l ==> #[trigger] steps@[k].1
                != #[trigger] steps@[l].1,
{
    let n = s.len();
    let mut steps: Vec<(usize, usize)> = Vec::new();
    let mut c: usize = 0;
    while c < n
        invariant
            n == s@.len(),
            c <= n,
            forall|k: int|
                #![trigger steps@[k]]
                0 <= k < steps@.len() ==> is_step(s@, steps@[k].0 as int, steps@[k].1 as int)
                    && visible_at(s@, steps@[k].1 as int, as_at) && steps@[k].1 < c,
            forall|p: int, d: int|
                0 <= d < c && is_step(s@, p, d) && visible_at(s@, d, as_at) ==> exists|k: int|
                    0 <= k < steps@.len() && #[trigger] steps@[k] == (p as usize, d as usize),
            forall|k: int, l: int|
                0 <= k < l < steps@.len() ==> !text_before(
                    #[trigger] change_time(s@, steps@, k),
                    #[trigger] change_time(s@, steps@, l),
                ),
            forall|k: int, l: int|
                0 <= k < steps@.len() && 0 <= l < steps@.len() && k != l ==> #[trigger] steps@[k].1
                    != #[trigger] steps@[l].1,
        decreases n - c,
    {
        let replaced = replaced_observation(s, c);
        let visible = match as_at {
            None => true,
            Some(at) => !precedes(at, s[c].observed_at.as_str()),
        };
        let ghost before = steps@;
        match replaced {
            Some(p) => {
                if visible {
                    let time = s[c].observed_at.as_str();
                    let mut k: usize = 0;
                    while k < steps.len() && !precedes(s[steps[k].1].observed_at.as_str(), time)
                        invariant
                            steps@ == before,
                            k <= steps@.len(),
                            c < n,
                            n == s@.len(),
                            time@ == s@[c as int].observed_at@,
                            forall|j: int| #![trigger steps@[j]] 0 <= j < steps@.len() ==> steps@[j].1 < c,
                            forall|j: int|
                                0 <= j < k ==> !text_before(
                                    #[trigger] change_time(s@, steps@, j),
                                    time@,
                                ),
                        decreases steps@.len() - k,
                    {
                        k = k + 1;
                    }
                    steps.insert(k, (p, c));
                    proof {
                        let added = (p, c);
                        assert(steps@ == before.insert(k as int, added));
                        assert forall|a: int, b: int|
                            0 <= a < b < steps@.len() implies !text_before(
                            #[trigger] change_time(s@, steps@, a),
                            #[trigger] change_time(s@, steps@, b),
                        ) by {
                            let ta = change_time(s@, steps@, a);
                            let tb = change_time(s@, steps@, b);
                            if a < k as int && b == k as int {
                                assert(ta == change_time(s@, before, a));
                            } else if a == k as int && b > k as int {
                                let tk = change_time(s@, before, k as int);
                                assert(tb == change_time(s@, before, b - 1));
                                assert(text_before(tk, time@));
                                if b - 1 > k as int {
                                    assert(!text_before(tk, tb));
                                }
                                lemma_text_order(tb, tk, time@);
                                lemma_text_order(time@, tb, tk);
                            } else if a < k as int && b > k as int {
                                assert(ta == change_time(s@, before, a));
                                assert(tb == change_time(s@, before, b - 1));
                            } else if a > k as int {
                                assert(ta == change_time(s@, before, a - 1));
                                assert(tb == change_time(s@, before, b - 1));
                            } else {
                                assert(ta == change_time(s@, before, a));
                                assert(tb == change_time(s@, before, b));
                            }
                        }
                        assert forall|x: int, y: int|
                            0 <= x < steps@.len() && 0 <= y < steps@.len() && x != y implies #[trigger] steps@[x].1
                            != #[trigger] steps@[y].1 by {
                            if x != k as int && y != k as int {
                                let bx = if x < k as int { x } else { x - 1 };
                                let by = if y < k as int { y } else { y - 1 };
                                assert(steps@[x] == before[bx]);
                                assert(steps@[y] == before[by]);
                            } else if x == k as int {
                                let by = if y < k as int { y } else { y - 1 };
                                assert(steps@[y] == before[by]);
                            } else {
                                let bx = if x < k as int { x } else { x - 1 };
                                assert(steps@[x] == before[bx]);
                            }
                        }
                        assert forall|q: int, d: int|
                            0 <= d < c + 1 && is_step(s@, q, d) && visible_at(s@, d, as_at) implies exists|j: int|
                            0 <= j < steps@.len() && #[trigger] steps@[j] == (q as usize, d as usize) by {
                            if d < c {
                                let j0 = choose|j: int|
                                    0 <= j < before.len() && #[trigger] before[j] == (q as usize, d as usize);
                                let j1 = if j0 < k as int { j0 } else { j0 + 1 };
                                assert(steps@[j1] == before[j0]);
                            } else {
                                lemma_step_unique(s@, q, p as int, c as int);
                                assert(steps@[k as int] == (q as usize, d as usize));
                            }
                        }
                    }
                } else {
                    proof {
                        assert forall|q: int, d: int|
                            0 <= d < c + 1 && is_step(s@, q, d) && visible_at(s@, d, as_at) implies exists|j: int|
                            0 <= j < steps@.len() && #[trigger] steps@[j] == (q as usize, d as usize) by {
                            if d == c {
                                assert(false);
                            }
                        }
                    }
                }
            },
            None => {
                proof {
                    assert forall|q: int, d: int|
                        0 <= d < c + 1 && is_step(s@, q, d) && visible_at(s@, d, as_at) implies exists|j: int|
                        0 <= j < steps@.len() && #[trigger] steps@[j] == (q as usize, d as usize) by {
                        if d == c {
                            assert(precedes_in_series(s@, q, d));
                        }
                    }
                }
            },
        }
        c = c + 1;
    }
    steps
}

} // verus!
