//! Decides, from elapsed time before and after a tick, whether a new
//! "period is overdue" boundary was crossed, and words the notification.
use vstd::prelude::*;
use crate::text::{decimal, push_decimal};

verus! {

/// Overdue time between two notifications, in milliseconds (5 minutes).
pub const NOTIFY_PERIOD_MILLIS: u128 = 300_000;

/// Overdue time between two notifications, in minutes.
pub const NOTIFY_PERIOD_MINUTES: u128 = 5;

/// A period length given in whole seconds, in milliseconds.
pub open spec fn length_millis(period_length_secs: int) -> int {
    period_length_secs * 1000
}

/// How many notification boundaries lie at or before `elapsed`, counting
/// the end of the period as boundary zero; meaningful once `elapsed` has
/// reached `length`.
pub open spec fn boundary_index(length: int, elapsed: int) -> int {
    (elapsed - length) / (NOTIFY_PERIOD_MILLIS as int)
}

/// Whether going from `before` to `after` newly crosses a boundary: the
/// period is over at `after`, and either it was not over at `before` or a
/// later boundary has been passed since.
pub open spec fn crossed(length: int, before: int, after: int) -> bool {
    &&& after >= length
    &&& (before < length || boundary_index(length, after) > boundary_index(length, before))
}

/// The body of the notification for boundary `boundary` of the period
/// named `name`.
pub open spec fn message_body(name: Seq<char>, boundary: int) -> Seq<char> {
    if boundary * (NOTIFY_PERIOD_MINUTES as int) >= 1 {
        name + " has been over for "@ + decimal((boundary * (NOTIFY_PERIOD_MINUTES as int)) as nat)
            + " minutes"@
    } else {
        name + " is over"@
    }
}

/// The title of every notification.
pub open spec fn message_title() -> Seq<char> {
    "Done!"@
}

/// A notification to hand to the user: a title and a body.
pub struct NotificationEvent {
    pub title: String,
    pub body: String,
}

/// The boundary newly crossed between `elapsed_before` and `elapsed_after`
/// (milliseconds), for a period of `period_length_secs` seconds, if any.
pub fn check(period_length_secs: u64, elapsed_before: u64, elapsed_after: u64) -> (r: Option<u64>)
    ensures
        r is Some <==> crossed(length_millis(period_length_secs as int), elapsed_before as int, elapsed_after as int),
        r matches Some(b) ==> b == boundary_index(length_millis(period_length_secs as int), elapsed_after as int),
{
    let length: u128 = period_length_secs as u128 * 1000;
    let before = elapsed_before as u128;
    let after = elapsed_after as u128;
    if after < length {
        return None;
    }
    let boundary_after = (after - length) / NOTIFY_PERIOD_MILLIS;
    assert(boundary_after <= after);
    if before < length || boundary_after > (before - length) / NOTIFY_PERIOD_MILLIS {
        Some(boundary_after as u64)
    } else {
        None
    }
}

/// Words the notification for boundary `boundary` of the period named
/// `period_name`.
pub fn notification_event(period_name: &str, boundary: u64) -> (r: NotificationEvent)
    ensures
        r.title@ == message_title(),
        r.body@ == message_body(period_name@, boundary as int),
{
    let mut body = period_name.to_owned();
    if boundary >= 1 {
        body.append(" has been over for ");
        push_decimal(&mut body, boundary as u128 * NOTIFY_PERIOD_MINUTES);
        body.append(" minutes");
    } else {
        body.append(" is over");
    }
    let title = "Done!".to_owned();
    NotificationEvent { title, body }
}

/// Between two elapsed values, a notification is due exactly when some boundary
/// (the end of the period, then every five overdue minutes) lies after the
/// first and at or before the second.
pub proof fn lemma_fires_exactly_at_boundaries(length: int, before: int, after: int)
    requires
        0 <= length,
        0 <= before <= after,
    ensures
        crossed(length, before, after) <==> exists|k: int|
            k >= 0 && before < #[trigger] (length + k * (NOTIFY_PERIOD_MILLIS as int)) <= after,
{
    let d = NOTIFY_PERIOD_MILLIS as int;
    if crossed(length, before, after) {
        let k = boundary_index(length, after);
        assert(k * d <= after - length) by (nonlinear_arith)
            requires k == (after - length) / d, after - length >= 0, d == 300_000;
        if before >= length {
            let j = boundary_index(length, before);
            assert(before - length < (j + 1) * d) by (nonlinear_arith)
                requires j == (before - length) / d, before - length >= 0, d == 300_000;
            assert(j + 1 <= k);
            assert((j + 1) * d <= k * d) by (nonlinear_arith)
                requires j + 1 <= k, d == 300_000;
        }
        assert(before < length + k * d <= after);
    }
    if exists|k: int| k >= 0 && before < #[trigger] (length + k * d) <= after {
        let k = choose|k: int| k >= 0 && before < #[trigger] (length + k * d) <= after;
        assert(k * d >= 0) by (nonlinear_arith)
            requires k >= 0, d == 300_000;
        assert(after >= length);
        if before >= length {
            let a = boundary_index(length, after);
            let j = boundary_index(length, before);
            assert(a >= k) by (nonlinear_arith)
                requires a == (after - length) / d, k * d <= after - length, d == 300_000;
            assert(j < k) by (nonlinear_arith)
                requires j == (before - length) / d, before - length < k * d, before - length >= 0, d == 300_000;
        }
    }
}

/// A tick that leaves elapsed time where it was never fires.
pub proof fn lemma_unchanged_never_fires(length: int, elapsed: int)
    ensures
        !crossed(length, elapsed, elapsed),
{
}

/// Along elapsed values that never decrease, each boundary passed between
/// the first and the last value is crossed at exactly one step, where the
/// a notification is due; when that step is shorter than the notification period,
/// the boundary reported is that very one.
pub proof fn lemma_boundary_fires_once(length: int, es: Seq<int>, k: int)
    requires
        0 <= length,
        0 <= k,
        es.len() >= 2,
        0 <= es[0],
        forall|i: int, j: int| 0 <= i <= j < es.len() ==> es[i] <= es[j],
        es[0] < length + k * (NOTIFY_PERIOD_MILLIS as int) <= es.last(),
    ensures
        exists|i: int|
            0 <= i < es.len() - 1 && es[i] < length + k * (NOTIFY_PERIOD_MILLIS as int) <= #[trigger] es[i + 1]
                && crossed(length, es[i], es[i + 1]),
        forall|i: int, j: int|
            0 <= i < es.len() - 1 && 0 <= j < es.len() - 1
                && es[i] < length + k * (NOTIFY_PERIOD_MILLIS as int) <= #[trigger] es[i + 1]
                && es[j] < length + k * (NOTIFY_PERIOD_MILLIS as int) <= #[trigger] es[j + 1]
                ==> i == j,
        forall|i: int|
            0 <= i < es.len() - 1 && es[i] < length + k * (NOTIFY_PERIOD_MILLIS as int) <= #[trigger] es[i + 1]
                && es[i + 1] - es[i] < NOTIFY_PERIOD_MILLIS as int
                ==> boundary_index(length, es[i + 1]) == k,
    decreases es.len(),
{
    let d = NOTIFY_PERIOD_MILLIS as int;
    let b = length + k * d;
    let n = es.len();
    if es[n - 2] < b {
        assert(es[0] <= es[n - 2]);
        lemma_fires_exactly_at_boundaries(length, es[n - 2], es[n - 1]);
        assert(es[n - 2] < length + k * d <= es[n - 1]);
        let i = n - 2;
        assert(es[i] < b <= es[i + 1] && crossed(length, es[i], es[i + 1]));
    } else {
        let rest = es.drop_last();
        assert(rest.last() == es[n - 2]);
        assert(rest[0] == es[0]);
        lemma_boundary_fires_once(length, rest, k);
        let i = choose|i: int|
            0 <= i < rest.len() - 1 && rest[i] < b <= #[trigger] rest[i + 1] && crossed(length, rest[i], rest[i + 1]);
        assert(es[i] < b <= es[i + 1] && crossed(length, es[i], es[i + 1]));
    }
    assert forall|i: int, j: int|
        0 <= i < n - 1 && 0 <= j < n - 1
            && es[i] < b <= #[trigger] es[i + 1]
            && es[j] < b <= #[trigger] es[j + 1]
        implies i == j by {
        if i < j {
            assert(es[i + 1] <= es[j]);
        } else if j < i {
            assert(es[j + 1] <= es[i]);
        }
    }
    assert forall|i: int|
        0 <= i < n - 1 && es[i] < b <= #[trigger] es[i + 1] && es[i + 1] - es[i] < d
        implies boundary_index(length, es[i + 1]) == k by {
        let x = es[i + 1] - length;
        assert(k * d <= x < k * d + d);
        assert(x / d == k) by (nonlinear_arith)
            requires k * d <= x < k * d + d, d == 300_000;
    }
}

} // verus!
