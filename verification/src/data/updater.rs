//! Batched changes to an OBS data object.
use vstd::prelude::*;

verus! {

/// One change to an OBS data object: a key and its new value.
#[derive(Debug, Clone)]
pub enum ObsDataChange {
    String(String, String),
    Int(String, i64),
    Bool(String, bool),
}

/// Collects changes to an OBS data object; they are applied together, in the
/// order in which they were made.
#[derive(Debug, Clone)]
pub struct ObsDataUpdater {
    changes: Vec<ObsDataChange>,
}

/// Whether a change sets the string `value` under `key`.
pub open spec fn spec_is_string_change(c: ObsDataChange, key: Seq<char>, value: Seq<char>) -> bool {
    c matches ObsDataChange::String(k, v) && k@ == key && v@ == value
}

/// Whether a change sets the integer `value` under `key`.
pub open spec fn spec_is_int_change(c: ObsDataChange, key: Seq<char>, value: i64) -> bool {
    c matches ObsDataChange::Int(k, v) && k@ == key && v == value
}

/// Whether a change sets the boolean `value` under `key`.
pub open spec fn spec_is_bool_change(c: ObsDataChange, key: Seq<char>, value: bool) -> bool {
    c matches ObsDataChange::Bool(k, v) && k@ == key && v == value
}

impl View for ObsDataUpdater {
    type V = Seq<ObsDataChange>;

    closed spec fn view(&self) -> Seq<ObsDataChange> {
        self.changes@
    }
}

impl ObsDataUpdater {
    /// An updater without changes.
    pub fn new() -> (r: Self)
        ensures
            r@ == Seq::<ObsDataChange>::empty(),
    {
        ObsDataUpdater { changes: Vec::new() }
    }

    /// Adds a change that sets a string.
    pub fn set_string_ref(&mut self, key: &str, value: &str)
        ensures
            final(self)@.len() == old(self)@.len() + 1,
            final(self)@.drop_last() == old(self)@,
            spec_is_string_change(final(self)@.last(), key@, value@),
    {
        self.changes.push(ObsDataChange::String(key.to_owned(), value.to_owned()));
    }

    /// Adds a change that sets a string, and returns the updater.
    pub fn set_string(self, key: &str, value: &str) -> (r: Self)
        ensures
            r@.len() == self@.len() + 1,
            r@.drop_last() == self@,
            spec_is_string_change(r@.last(), key@, value@),
    {
        let mut s = self;
        s.set_string_ref(key, value);
        s
    }

    /// Adds a change that sets an integer.
    pub fn set_int_ref(&mut self, key: &str, value: i64)
        ensures
            final(self)@.len() == old(self)@.len() + 1,
            final(self)@.drop_last() == old(self)@,
            spec_is_int_change(final(self)@.last(), key@, value),
    {
        self.changes.push(ObsDataChange::Int(key.to_owned(), value));
    }

    /// Adds a change that sets an integer, and returns the updater.
    pub fn set_int(self, key: &str, value: i64) -> (r: Self)
        ensures
            r@.len() == self@.len() + 1,
            r@.drop_last() == self@,
            spec_is_int_change(r@.last(), key@, value),
    {
        let mut s = self;
        s.set_int_ref(key, value);
        s
    }

    /// Adds a change that sets a boolean.
    pub fn set_bool_ref(&mut self, key: &str, value: bool)
        ensures
            final(self)@.len() == old(self)@.len() + 1,
            final(self)@.drop_last() == old(self)@,
            spec_is_bool_change(final(self)@.last(), key@, value),
    {
        self.changes.push(ObsDataChange::Bool(key.to_owned(), value));
    }

    /// Adds a change that sets a boolean, and returns the updater.
    pub fn set_bool(self, key: &str, value: bool) -> (r: Self)
        ensures
            r@.len() == self@.len() + 1,
            r@.drop_last() == self@,
            spec_is_bool_change(r@.last(), key@, value),
    {
        let mut s = self;
        s.set_bool_ref(key, value);
        s
    }

    /// The changes, in the order in which they were made.
    pub fn changes(&self) -> (r: &Vec<ObsDataChange>)
        ensures
            r@ == self@,
    {
        &self.changes
    }
}

/// One step of applying a batch: a change collected by an `ObsDataUpdater`, by
/// its index, or a value set beside the updater, by its index.
#[derive(Clone, Copy, Debug, PartialEq, Eq, Structural)]
pub enum BatchStep {
    Change(usize),
    Extra(usize),
}

/// The order in which a batch is applied, from change `i` and extra value `j`
/// on: `n` changes, and extra values, each with the number of changes that
/// were made before it. Each extra value comes right after the changes made
/// before it; among changes and among extra values the order is kept.
pub open spec fn spec_batch_order(n: nat, positions: Seq<usize>, i: nat, j: nat) -> Seq<BatchStep>
    decreases n + positions.len() - i - j,
    when i <= n && j <= positions.len()
{
    if j < positions.len() && (i >= n || positions[j as int] <= i) {
        seq![BatchStep::Extra(j as usize)] + spec_batch_order(n, positions, i, j + 1)
    } else if i < n {
        seq![BatchStep::Change(i as usize)] + spec_batch_order(n, positions, i + 1, j)
    } else {
        Seq::<BatchStep>::empty()
    }
}

/// The order in which a batch of `n` changes and extra values recorded at
/// `positions` is applied.
pub fn batch_order(n: usize, positions: &Vec<usize>) -> (r: Vec<BatchStep>)
    ensures
        r@ == spec_batch_order(n as nat, positions@, 0, 0),
{
    let mut r: Vec<BatchStep> = Vec::new();
    let mut i: usize = 0;
    let mut j: usize = 0;
    while i < n || j < positions.len()
        invariant
            i <= n,
            j <= positions@.len(),
            r@ + spec_batch_order(n as nat, positions@, i as nat, j as nat) == spec_batch_order(
                n as nat,
                positions@,
                0,
                0,
            ),
        decreases n + positions@.len() - i - j,
    {
        if j < positions.len() && (i >= n || positions[j] <= i) {
            let ghost rest = spec_batch_order(n as nat, positions@, i as nat, (j + 1) as nat);
            assert(r@.push(BatchStep::Extra(j)) + rest =~= r@ + (seq![BatchStep::Extra(j)] + rest));
            r.push(BatchStep::Extra(j));
            j = j + 1;
        } else {
            let ghost rest = spec_batch_order(n as nat, positions@, (i + 1) as nat, j as nat);
            assert(r@.push(BatchStep::Change(i)) + rest =~= r@ + (seq![BatchStep::Change(i)] + rest));
            r.push(BatchStep::Change(i));
            i = i + 1;
        }
    }
    assert(r@ + Seq::<BatchStep>::empty() =~= r@);
    r
}

/// A batch applies every change and every extra value exactly once in all:
/// its order has one step for each.
pub proof fn lemma_batch_order_len(n: nat, positions: Seq<usize>, i: nat, j: nat)
    requires
        i <= n,
        j <= positions.len(),
    ensures
        spec_batch_order(n, positions, i, j).len() == (n - i) + (positions.len() - j),
    decreases n + positions.len() - i - j,
{
    if j < positions.len() && (i >= n || positions[j as int] <= i) {
        lemma_batch_order_len(n, positions, i, j + 1);
    } else if i < n {
        lemma_batch_order_len(n, positions, i + 1, j);
    }
}

} // verus!
