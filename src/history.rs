//! Per-entity undo/redo history: a linear `past` / `present` / `future`
//! stack of full-value snapshots, with a bounded past.
use vstd::prelude::*;

verus! {

/// Once the past holds more than this many snapshots it is trimmed.
pub const HISTORY_TRIM_THRESHOLD: usize = 25;

/// How many of the most recent snapshots a trim keeps.
pub const HISTORY_RETAINED: usize = 15;

/// What the user interface may offer for one entity.
pub struct UndoRedoActions {
    pub can_undo: bool,
    pub can_redo: bool,
}

/// Why a history operation could not be carried out.
#[derive(Debug, PartialEq, Eq, Structural)]
pub enum HistoryError {
    /// Undo with an empty past, or redo with an empty future.
    NoHistory,
    /// No value was ever recorded.
    NoPresent,
}

/// The mathematical content of a history.
pub ghost struct HistoryModel<T> {
    pub past: Seq<T>,
    pub present: Option<T>,
    pub future: Seq<T>,
}

/// The history of one entity: `past` oldest first, `future` with the next
/// redoable snapshot last.
pub struct Historic<T> {
    past: Vec<T>,
    present: Option<T>,
    future: Vec<T>,
}

/// The past after a push, cut back to the most recent snapshots when it grew
/// over the threshold.
pub open spec fn trimmed<T>(past: Seq<T>) -> Seq<T> {
    if past.len() > HISTORY_TRIM_THRESHOLD {
        past.subrange(past.len() - HISTORY_RETAINED, past.len() as int)
    } else {
        past
    }
}

/// The past once the current present (if any) has been pushed onto it.
pub open spec fn pushed_past<T>(past: Seq<T>, present: Option<T>) -> Seq<T> {
    match present {
        Some(p) => trimmed(past.push(p)),
        None => past,
    }
}

/// `record(v)`: the present moves to the past, `v` becomes the present, and
/// the future is dropped.
pub open spec fn recorded<T>(h: HistoryModel<T>, v: T) -> HistoryModel<T> {
    HistoryModel { past: pushed_past(h.past, h.present), present: Some(v), future: Seq::empty() }
}

/// `undo`: the most recent past snapshot becomes the present, the present
/// moves to the future. Meaningful when the past is not empty.
pub open spec fn undone<T>(h: HistoryModel<T>) -> HistoryModel<T> {
    HistoryModel {
        past: h.past.drop_last(),
        present: Some(h.past.last()),
        future: match h.present {
            Some(p) => h.future.push(p),
            None => h.future,
        },
    }
}

/// `redo`: the most recent future snapshot becomes the present, the present
/// moves to the past. Meaningful when the future is not empty.
pub open spec fn redone<T>(h: HistoryModel<T>) -> HistoryModel<T> {
    HistoryModel {
        past: pushed_past(h.past, h.present),
        present: Some(h.future.last()),
        future: h.future.drop_last(),
    }
}

/// A history whose past respects the bound, whose past and future together
/// hold no more than the threshold (so a redo never trims), and which has a
/// past or a future only once a present was recorded.
pub open spec fn bounded<T>(h: HistoryModel<T>) -> bool {
    &&& h.past.len() <= HISTORY_TRIM_THRESHOLD
    &&& h.past.len() + h.future.len() <= HISTORY_TRIM_THRESHOLD
    &&& h.present is None ==> h.past.len() == 0 && h.future.len() == 0
}

/// The last (most recent) `n` snapshots of `s`, all of them when it holds
/// no more.
pub open spec fn newest<T>(s: Seq<T>, n: nat) -> Seq<T> {
    if s.len() > n {
        s.subrange(s.len() - n, s.len() as int)
    } else {
        s
    }
}

/// The history before any value was recorded.
pub open spec fn empty_history<T>() -> HistoryModel<T> {
    HistoryModel { past: Seq::empty(), present: None, future: Seq::empty() }
}

impl<T> View for Historic<T> {
    type V = HistoryModel<T>;

    closed spec fn view(&self) -> HistoryModel<T> {
        HistoryModel { past: self.past@, present: self.present, future: self.future@ }
    }
}

/// The history after recording each value of `vs` in turn.
pub open spec fn record_all<T>(h: HistoryModel<T>, vs: Seq<T>) -> HistoryModel<T>
    decreases vs.len(),
{
    if vs.len() == 0 {
        h
    } else {
        recorded(record_all(h, vs.drop_last()), vs.last())
    }
}

/// The history after `k` undos.
pub open spec fn undo_times<T>(h: HistoryModel<T>, k: nat) -> HistoryModel<T>
    decreases k,
{
    if k == 0 {
        h
    } else {
        undone(undo_times(h, (k - 1) as nat))
    }
}

/// Every operation keeps a history bounded: the past never exceeds the
/// threshold, and a push that takes it over the threshold leaves exactly the
/// retained number of snapshots.
pub proof fn lemma_past_stays_bounded<T>(h: HistoryModel<T>, v: T)
    requires
        bounded(h),
    ensures
        bounded(recorded(h, v)),
        h.past.len() > 0 ==> bounded(undone(h)),
        h.future.len() > 0 ==> bounded(redone(h)),
        h.present is Some && h.past.len() == HISTORY_TRIM_THRESHOLD ==> recorded(h, v).past.len()
            == HISTORY_RETAINED,
        h.future.len() > 0 ==> redone(h).past == h.past.push(h.present->0),
        h.present is Some && h.past.len() < HISTORY_TRIM_THRESHOLD ==> recorded(h, v).past == h.past.push(
            h.present->0,
        ),
{
}

proof fn lemma_record_all_shape<T>(vs: Seq<T>)
    ensures
        ({
            let m = record_all(empty_history::<T>(), vs);
            &&& bounded(m)
            &&& m.future.len() == 0
            &&& vs.len() == 0 ==> m == empty_history::<T>()
            &&& vs.len() > 0 ==> m.present == Some(vs.last())
            &&& vs.len() > 0 ==> m.past.len() < vs.len()
            &&& vs.len() > 0 ==> m.past =~= vs.subrange(
                vs.len() - 1 - m.past.len(),
                vs.len() - 1,
            )
            &&& vs.len() <= HISTORY_TRIM_THRESHOLD + 1 && vs.len() > 0 ==> m.past.len() == vs.len()
                - 1
        }),
    decreases vs.len(),
{
    if vs.len() > 0 {
        let prev = vs.drop_last();
        lemma_record_all_shape(prev);
        let m0 = record_all(empty_history::<T>(), prev);
        let m = record_all(empty_history::<T>(), vs);
        assert(m == recorded(m0, vs.last()));
        if prev.len() > 0 {
            let n = vs.len();
            let pushed = m0.past.push(prev.last());
            assert(pushed =~= vs.subrange(n - 1 - pushed.len(), n - 1));
            if pushed.len() > HISTORY_TRIM_THRESHOLD {
                assert(m.past =~= vs.subrange(n - 1 - m.past.len(), n - 1));
            }
        } else {
            assert(m.past =~= vs.subrange(vs.len() - 1 - m.past.len(), vs.len() - 1));
        }
    }
}

proof fn lemma_undo_times_shape<T>(h: HistoryModel<T>, k: nat)
    requires
        bounded(h),
        h.present is Some,
        k <= h.past.len(),
    ensures
        bounded(undo_times(h, k)),
        undo_times(h, k).past =~= h.past.subrange(0, h.past.len() - k),
        k > 0 ==> undo_times(h, k).present == Some(h.past[h.past.len() - k]),
        k == 0 ==> undo_times(h, k).present == h.present,
    decreases k,
{
    if k > 0 {
        lemma_undo_times_shape(h, (k - 1) as nat);
    }
}

/// After recording `v1 .. vn` into a fresh history and undoing `k` times,
/// the present is `v(n-k)`. This holds while the undos stay within the
/// recorded past: for every `k <= n - 1` when `n` is at most one more than
/// the trim threshold, and for as many undos as the trimmed past allows
/// beyond that.
pub proof fn lemma_undo_after_records<T>(vs: Seq<T>, k: nat)
    requires
        vs.len() >= 1,
        k <= vs.len() - 1,
        k <= record_all(empty_history::<T>(), vs).past.len(),
    ensures
        undo_times(record_all(empty_history::<T>(), vs), k).present == Some(vs[vs.len() - 1 - k]),
{
    lemma_record_all_shape(vs);
    lemma_undo_times_shape(record_all(empty_history::<T>(), vs), k);
}

/// When no trim has happened (at most one more value than the threshold),
/// every value but the last is in the past, so all `n - 1` undos succeed.
pub proof fn lemma_records_keep_whole_past<T>(vs: Seq<T>)
    requires
        1 <= vs.len() <= HISTORY_TRIM_THRESHOLD + 1,
    ensures
        record_all(empty_history::<T>(), vs).past == vs.drop_last(),
{
    lemma_record_all_shape(vs);
    assert(record_all(empty_history::<T>(), vs).past =~= vs.drop_last());
}

/// Undo then redo gives back the same history, and so does redo then undo.
/// So `undo; redo; undo` ends on the value the first undo gave.
pub proof fn lemma_undo_redo_round_trip<T>(h: HistoryModel<T>)
    requires
        bounded(h),
    ensures
        h.past.len() > 0 ==> redone(undone(h)) == h,
        h.past.len() > 0 ==> undone(redone(undone(h))) == undone(h),
        h.future.len() > 0 ==> undone(redone(h)) == h,
{
    if h.past.len() > 0 {
        let u = undone(h);
        assert(u.future.drop_last() =~= h.future);
        assert(u.past.push(h.past.last()) =~= h.past);
        assert(redone(u).past =~= h.past);
        assert(redone(u) =~= h);
    }
    if h.future.len() > 0 {
        let r = redone(h);
        assert(r.past.len() > 0);
        assert(r.past.drop_last() =~= h.past);
        assert(r.future.push(h.future.last()) =~= h.future);
        assert(undone(r) =~= h);
    }
}

/// Repeating `undo; redo` any number of times leaves the history as it was.
pub proof fn lemma_undo_redo_idempotent<T>(h: HistoryModel<T>, times: nat)
    requires
        bounded(h),
        h.past.len() > 0,
    ensures
        undo_redo_times(h, times) == h,
    decreases times,
{
    lemma_undo_redo_round_trip(h);
    if times > 0 {
        lemma_undo_redo_idempotent(h, (times - 1) as nat);
    }
}

/// The history after `times` rounds of `undo; redo`.
pub open spec fn undo_redo_times<T>(h: HistoryModel<T>, times: nat) -> HistoryModel<T>
    decreases times,
{
    if times == 0 {
        h
    } else {
        redone(undone(undo_redo_times(h, (times - 1) as nat)))
    }
}

/// A record made after any number of undos leaves no future, so the next
/// redo has nothing to restore.
pub proof fn lemma_record_clears_future<T>(h: HistoryModel<T>, k: nat, v: T)
    requires
        bounded(h),
    ensures
        recorded(undo_times(h, k), v).future.len() == 0,
{
}

/// Nothing to undo or redo before the first record, nor after exactly one;
/// after two records there is one undo and no redo.
pub proof fn lemma_undo_redo_availability<T>(v1: T, v2: T)
    ensures
        empty_history::<T>().past.len() == 0,
        empty_history::<T>().future.len() == 0,
        recorded(empty_history::<T>(), v1).past.len() == 0,
        recorded(empty_history::<T>(), v1).future.len() == 0,
        recorded(recorded(empty_history::<T>(), v1), v2).past.len() > 0,
        recorded(recorded(empty_history::<T>(), v1), v2).future.len() == 0,
{
}

proof fn lemma_trimmed_bounded<T>(past: Seq<T>)
    requires
        past.len() <= HISTORY_TRIM_THRESHOLD + 1,
    ensures
        trimmed(past).len() <= HISTORY_TRIM_THRESHOLD,
        past.len() > HISTORY_TRIM_THRESHOLD ==> trimmed(past).len() == HISTORY_RETAINED,
{
}

impl<T: Clone> Historic<T> {
    /// The past never holds more snapshots than the threshold.
    pub open spec fn wf(&self) -> bool {
        bounded(self@)
    }

    /// An empty history: what an entity has before its first record.
    pub fn new() -> (r: Self)
        ensures
            r@ == empty_history::<T>(),
            r.wf(),
    {
        Historic { past: Vec::new(), present: None, future: Vec::new() }
    }

    /// Rebuilds a history from its stored parts. A past over the threshold
    /// is trimmed to the most recent snapshots; then the oldest snapshots of
    /// the future, and after them of the past, are dropped until both
    /// together hold no more than the threshold. Without a present, past and
    /// future are dropped.
    pub fn from_parts(past: Vec<T>, present: Option<T>, future: Vec<T>) -> (r: Self)
        ensures
            present is None ==> r@ == empty_history::<T>(),
            present is Some ==> r@.present == present && r@.future == newest(
                future@,
                HISTORY_TRIM_THRESHOLD as nat,
            ) && r@.past == newest(
                trimmed(past@),
                (HISTORY_TRIM_THRESHOLD - newest(future@, HISTORY_TRIM_THRESHOLD as nat).len()) as nat,
            ),
            r.wf(),
    {
        if present.is_none() {
            return Historic::new();
        }
        let mut h = Historic { past, present, future };
        h.trim_past();
        let flen = h.future.len();
        if flen > HISTORY_TRIM_THRESHOLD {
            let kept = h.future.split_off(flen - HISTORY_TRIM_THRESHOLD);
            h.future = kept;
        }
        let room = HISTORY_TRIM_THRESHOLD - h.future.len();
        let plen = h.past.len();
        if plen > room {
            let kept = h.past.split_off(plen - room);
            h.past = kept;
        }
        h
    }

    /// Gives the stored parts back: past, present, future.
    pub fn into_parts(self) -> (r: (Vec<T>, Option<T>, Vec<T>))
        ensures
            r.0@ == self@.past,
            r.1 == self@.present,
            r.2@ == self@.future,
    {
        (self.past, self.present, self.future)
    }

    fn trim_past(&mut self)
        ensures
            final(self)@.past == trimmed(old(self)@.past),
            final(self)@.present == old(self)@.present,
            final(self)@.future == old(self)@.future,
            final(self)@.past.len() <= HISTORY_TRIM_THRESHOLD,
            old(self)@.past.len() <= HISTORY_TRIM_THRESHOLD ==> final(self)@.past == old(self)@.past,
    {
        let len = self.past.len();
        if len > HISTORY_TRIM_THRESHOLD {
            let kept = self.past.split_off(len - HISTORY_RETAINED);
            self.past = kept;
        }
    }

    /// Moves the present, if any, onto the past, trimming the past.
    fn push_present(&mut self)
        requires
            old(self).wf(),
        ensures
            final(self)@.past == pushed_past(old(self)@.past, old(self)@.present),
            final(self)@.present is None,
            final(self)@.future == old(self)@.future,
            final(self)@.past.len() <= HISTORY_TRIM_THRESHOLD,
    {
        if let Some(current) = self.present.take() {
            self.past.push(current);
            proof {
                lemma_trimmed_bounded(self.past@);
            }
            self.trim_past();
        }
    }

    /// Records a new value: the present moves to the past (trimmed to the
    /// most recent snapshots once over the threshold), `new_value` becomes
    /// the present, and the future is cleared.
    pub fn set_new(&mut self, new_value: T)
        requires
            old(self).wf(),
        ensures
            final(self)@ == recorded(old(self)@, new_value),
            final(self).wf(),
    {
        self.push_present();
        self.present = Some(new_value);
        self.future = Vec::new();
    }

    /// Steps back: fails with `NoHistory` when the past is empty; otherwise
    /// the most recent past snapshot becomes the present and a copy of it is
    /// returned.
    pub fn undo(&mut self) -> (r: Result<T, HistoryError>)
        requires
            old(self).wf(),
        ensures
            final(self).wf(),
            old(self)@.past.len() == 0 ==> r == Err::<T, HistoryError>(HistoryError::NoHistory)
                && final(self)@ == old(self)@,
            old(self)@.past.len() > 0 ==> r is Ok && final(self)@ == undone(old(self)@)
                && cloned(old(self)@.past.last(), r->Ok_0),
    {
        match self.past.pop() {
            None => Err(HistoryError::NoHistory),
            Some(prev) => {
                if let Some(current) = self.present.take() {
                    self.future.push(current);
                }
                let copy = prev.clone();
                self.present = Some(prev);
                Ok(copy)
            },
        }
    }

    /// Steps forward: fails with `NoHistory` when the future is empty;
    /// otherwise the most recent future snapshot becomes the present (the
    /// old present moves to the past) and a copy of it is returned.
    pub fn redo(&mut self) -> (r: Result<T, HistoryError>)
        requires
            old(self).wf(),
        ensures
            final(self).wf(),
            old(self)@.future.len() == 0 ==> r == Err::<T, HistoryError>(HistoryError::NoHistory)
                && final(self)@ == old(self)@,
            old(self)@.future.len() > 0 ==> r is Ok && final(self)@ == redone(old(self)@)
                && cloned(old(self)@.future.last(), r->Ok_0),
    {
        match self.future.pop() {
            None => Err(HistoryError::NoHistory),
            Some(next) => {
                self.push_present();
                let copy = next.clone();
                self.present = Some(next);
                Ok(copy)
            },
        }
    }

    /// A copy of the present; `NoPresent` when nothing was ever recorded.
    pub fn get_present(&self) -> (r: Result<T, HistoryError>)
        ensures
            self@.present is None ==> r == Err::<T, HistoryError>(HistoryError::NoPresent),
            self@.present is Some ==> r is Ok && cloned(self@.present->0, r->Ok_0),
    {
        match &self.present {
            None => Err(HistoryError::NoPresent),
            Some(p) => Ok(p.clone()),
        }
    }

    /// The present itself, when one was recorded.
    pub fn peek_present(&self) -> (r: Option<&T>)
        ensures
            r is Some <==> self@.present is Some,
            r is Some ==> *r->0 == self@.present->0,
    {
        self.present.as_ref()
    }

    /// Whether a present has been recorded.
    pub fn has_present(&self) -> (r: bool)
        ensures
            r == self@.present is Some,
    {
        self.present.is_some()
    }

    /// Undo is possible exactly when the past is not empty, redo exactly
    /// when the future is not empty.
    pub fn can_undo_redo(&self) -> (r: UndoRedoActions)
        ensures
            r.can_undo == (self@.past.len() > 0),
            r.can_redo == (self@.future.len() > 0),
    {
        UndoRedoActions { can_undo: self.past.len() > 0, can_redo: self.future.len() > 0 }
    }

    /// The past snapshots, oldest first.
    pub fn past(&self) -> (r: &Vec<T>)
        ensures
            r@ == self@.past,
    {
        &self.past
    }

    /// The future snapshots, the next one to redo last.
    pub fn future(&self) -> (r: &Vec<T>)
        ensures
            r@ == self@.future,
    {
        &self.future
    }
}

} // verus!
