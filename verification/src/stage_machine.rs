//! The stages of a product and the only ways from one to the next.
//!
//! A product is created at `Initialized`, a profile takes it to `Submitted`,
//! a sample to `Sampled`, and a report to `Finished`; a report may also be
//! published straight from `Submitted`. Every change of stage is one
//! conditional update, keyed by the barcode: it names the stages it may start
//! from, and the number of rows it changed tells whether it took place. The
//! ledger in this file applies such updates to rows held in memory; a
//! relational store applies the same updates with a `WHERE` clause.

use vstd::prelude::*;
use crate::auxiliary::responses::{GenericError, StoreFailure};
use crate::models::products::StageEnum;
use crate::text::same_text;

verus! {

/// A set of stages.
#[derive(Clone, Copy, Debug, PartialEq, Eq, Structural)]
pub struct StageSet {
    pub initialized: bool,
    pub submitted: bool,
    pub sampled: bool,
    pub finished: bool,
}

impl StageSet {
    /// Whether `stage` is in the set.
    pub open spec fn spec_contains(self, stage: StageEnum) -> bool {
        match stage {
            StageEnum::Initialized => self.initialized,
            StageEnum::Submitted => self.submitted,
            StageEnum::Sampled => self.sampled,
            StageEnum::Finished => self.finished,
        }
    }

    /// Whether `stage` is in the set.
    pub fn contains(&self, stage: StageEnum) -> (yes: bool)
        ensures
            yes == self.spec_contains(stage),
    {
        match stage {
            StageEnum::Initialized => self.initialized,
            StageEnum::Submitted => self.submitted,
            StageEnum::Sampled => self.sampled,
            StageEnum::Finished => self.finished,
        }
    }
}

/// One conditional update of a product: the stages it may start from, the
/// stage it sets, and the profile or report it links, if any.
#[derive(Clone, Copy, Debug, PartialEq, Eq, Structural)]
pub struct StageUpdate {
    pub from: StageSet,
    pub to: StageEnum,
    pub profile_id: Option<i32>,
    pub report_id: Option<u128>,
}

impl StageUpdate {
    /// Attaching a profile: only from `Initialized`, to `Submitted`.
    pub open spec fn spec_submit(profile_id: i32) -> StageUpdate {
        StageUpdate {
            from: StageSet { initialized: true, submitted: false, sampled: false, finished: false },
            to: StageEnum::Submitted,
            profile_id: Some(profile_id),
            report_id: None,
        }
    }

    /// Recording a sample: from `Submitted`, or once more from `Sampled`, to
    /// `Sampled`.
    pub open spec fn spec_sample() -> StageUpdate {
        StageUpdate {
            from: StageSet { initialized: false, submitted: true, sampled: true, finished: false },
            to: StageEnum::Sampled,
            profile_id: None,
            report_id: None,
        }
    }

    /// Publishing a report: from `Submitted` or `Sampled`, to `Finished`.
    pub open spec fn spec_publish(report_id: u128) -> StageUpdate {
        StageUpdate {
            from: StageSet { initialized: false, submitted: true, sampled: true, finished: false },
            to: StageEnum::Finished,
            profile_id: None,
            report_id: Some(report_id),
        }
    }

    /// Whether the update never takes a product back to an earlier stage.
    pub open spec fn forward(self) -> bool {
        forall|s: StageEnum| self.from.spec_contains(s) ==> s.rank() <= self.to.rank()
    }

    /// The entry after the update took place.
    pub open spec fn applied(self, entry: Entry) -> Entry {
        Entry {
            init_time: entry.init_time,
            stage: self.to,
            profile_id: if self.profile_id is Some {
                self.profile_id
            } else {
                entry.profile_id
            },
            report_id: if self.report_id is Some {
                self.report_id
            } else {
                entry.report_id
            },
        }
    }

    /// Attaching a profile: only from `Initialized`, to `Submitted`.
    pub fn submit(profile_id: i32) -> (update: StageUpdate)
        ensures
            update == StageUpdate::spec_submit(profile_id),
    {
        StageUpdate {
            from: StageSet { initialized: true, submitted: false, sampled: false, finished: false },
            to: StageEnum::Submitted,
            profile_id: Some(profile_id),
            report_id: None,
        }
    }

    /// Recording a sample: from `Submitted`, or once more from `Sampled`, to
    /// `Sampled`.
    pub fn sample() -> (update: StageUpdate)
        ensures
            update == StageUpdate::spec_sample(),
    {
        StageUpdate {
            from: StageSet { initialized: false, submitted: true, sampled: true, finished: false },
            to: StageEnum::Sampled,
            profile_id: None,
            report_id: None,
        }
    }

    /// Publishing a report: from `Submitted` or `Sampled`, to `Finished`.
    pub fn publish(report_id: u128) -> (update: StageUpdate)
        ensures
            update == StageUpdate::spec_publish(report_id),
    {
        StageUpdate {
            from: StageSet { initialized: false, submitted: true, sampled: true, finished: false },
            to: StageEnum::Finished,
            profile_id: None,
            report_id: Some(report_id),
        }
    }
}

/// What the ledger knows of one product, apart from its barcode.
pub struct Entry {
    pub init_time: i64,
    pub stage: StageEnum,
    pub profile_id: Option<i32>,
    pub report_id: Option<u128>,
}

/// The state of the products: each barcode with its entry.
pub type Products = Map<Seq<char>, Entry>;

/// Creating a product: a barcode that is not there yet gets an entry at
/// `Initialized`; one that is there is refused and nothing changes.
pub open spec fn init_step(products: Products, barcode: Seq<char>, now: i64) -> (
    Products,
    Result<(), GenericError>,
) {
    if products.contains_key(barcode) {
        (products, Err(GenericError::ProductDuplicateError))
    } else {
        (
            products.insert(
                barcode,
                Entry {
                    init_time: now,
                    stage: StageEnum::Initialized,
                    profile_id: None,
                    report_id: None,
                },
            ),
            Ok(()),
        )
    }
}

/// One conditional update and the number of rows it changed: one where the
/// barcode is there at one of the stages the update may start from, none
/// otherwise.
pub open spec fn update_step(products: Products, barcode: Seq<char>, update: StageUpdate) -> (
    Products,
    nat,
) {
    if products.contains_key(barcode) && update.from.spec_contains(products[barcode].stage) {
        (products.insert(barcode, update.applied(products[barcode])), 1)
    } else {
        (products, 0)
    }
}

/// What a transition makes of the number of rows its update changed: it took
/// place if a row changed, and is refused with `refusal` if none did.
pub open spec fn spec_outcome(rows: nat, refusal: GenericError) -> Result<(), GenericError> {
    if rows == 0 {
        Err(refusal)
    } else {
        Ok(())
    }
}

/// Attaching a profile to a product.
pub open spec fn submit_step(products: Products, barcode: Seq<char>, profile_id: i32) -> (
    Products,
    Result<(), GenericError>,
) {
    let (after, rows) = update_step(products, barcode, StageUpdate::spec_submit(profile_id));
    (after, spec_outcome(rows, GenericError::ProductReuseError))
}

/// Publishing a report for a product.
pub open spec fn publish_step(products: Products, barcode: Seq<char>, report_id: u128) -> (
    Products,
    Result<(), GenericError>,
) {
    let (after, rows) = update_step(products, barcode, StageUpdate::spec_publish(report_id));
    (after, spec_outcome(rows, GenericError::ProductReuseError))
}

/// Recording a sample for a product. The answer is the profile whose sample
/// time is to be written. A product that is not there is not found; one
/// without a profile has nothing to sample. The stage moves from `Submitted`
/// to `Sampled` and stays where it is otherwise.
pub open spec fn sample_step(products: Products, barcode: Seq<char>) -> (
    Products,
    Result<i32, GenericError>,
) {
    if !products.contains_key(barcode) {
        (products, Err(GenericError::StoreError(StoreFailure::NotFound)))
    } else {
        match products[barcode].profile_id {
            None => (products, Err(GenericError::ProfileNotExistError)),
            Some(profile_id) => (
                update_step(products, barcode, StageUpdate::spec_sample()).0,
                Ok(profile_id),
            ),
        }
    }
}

/// What a transition makes of the number of rows its update changed.
pub fn outcome(rows: usize, refusal: GenericError) -> (out: Result<(), GenericError>)
    ensures
        out == spec_outcome(rows as nat, refusal),
{
    if rows == 0 {
        Err(refusal)
    } else {
        Ok(())
    }
}

/// One product as the ledger holds it.
#[derive(Debug, PartialEq, Eq)]
pub struct LedgerRow {
    pub barcode: String,
    pub init_time: i64,
    pub stage: StageEnum,
    pub profile_id: Option<i32>,
    pub report_id: Option<u128>,
}

impl LedgerRow {
    /// The entry that the row stands for.
    pub open spec fn entry(&self) -> Entry {
        Entry {
            init_time: self.init_time,
            stage: self.stage,
            profile_id: self.profile_id,
            report_id: self.report_id,
        }
    }
}

/// Whether row `i` is the row of `barcode`.
pub open spec fn row_of(rows: Seq<LedgerRow>, barcode: Seq<char>, i: int) -> bool {
    0 <= i < rows.len() && rows[i].barcode@ == barcode
}

/// Whether no barcode has two rows.
pub open spec fn unique(rows: Seq<LedgerRow>) -> bool {
    forall|i: int, j: int|
        0 <= i < rows.len() && 0 <= j < rows.len() && rows[i].barcode@ == rows[j].barcode@ ==> i
            == j
}

/// The products that a sequence of rows stands for.
pub open spec fn products_of(rows: Seq<LedgerRow>) -> Products {
    Map::new(
        |b: Seq<char>| exists|i: int| row_of(rows, b, i),
        |b: Seq<char>| rows[choose|i: int| row_of(rows, b, i)].entry(),
    )
}

proof fn lemma_row(rows: Seq<LedgerRow>, i: int)
    requires
        unique(rows),
        0 <= i < rows.len(),
    ensures
        products_of(rows).contains_key(rows[i].barcode@),
        products_of(rows)[rows[i].barcode@] == rows[i].entry(),
{
    let b = rows[i].barcode@;
    assert(row_of(rows, b, i));
    let c = choose|k: int| row_of(rows, b, k);
    assert(row_of(rows, b, c));
}

proof fn lemma_push(rows: Seq<LedgerRow>, row: LedgerRow)
    requires
        unique(rows),
        !products_of(rows).contains_key(row.barcode@),
    ensures
        unique(rows.push(row)),
        products_of(rows.push(row)) == products_of(rows).insert(row.barcode@, row.entry()),
{
    let after = rows.push(row);
    assert forall|i: int, j: int|
        0 <= i < after.len() && 0 <= j < after.len() && after[i].barcode@
            == after[j].barcode@ implies i == j by {
        if i < rows.len() {
            assert(row_of(rows, rows[i].barcode@, i));
        }
        if j < rows.len() {
            assert(row_of(rows, rows[j].barcode@, j));
        }
    }
    assert forall|b: Seq<char>|
        products_of(after).contains_key(b) <==> #[trigger] products_of(rows).insert(
            row.barcode@,
            row.entry(),
        ).contains_key(b) by {
        if products_of(after).contains_key(b) {
            let k = choose|k: int| row_of(after, b, k);
            if k < rows.len() {
                assert(row_of(rows, b, k));
            }
        }
        if products_of(rows).contains_key(b) {
            let k = choose|k: int| row_of(rows, b, k);
            assert(row_of(after, b, k));
        }
        if b == row.barcode@ {
            assert(row_of(after, b, rows.len() as int));
        }
    }
    assert forall|b: Seq<char>| products_of(after).contains_key(b) implies products_of(after)[b]
        == products_of(rows).insert(row.barcode@, row.entry())[b] by {
        let k = choose|k: int| row_of(after, b, k);
        lemma_row(after, k);
        if k < rows.len() {
            assert(row_of(rows, b, k));
            lemma_row(rows, k);
        }
    }
    assert(products_of(after) =~= products_of(rows).insert(row.barcode@, row.entry()));
}

proof fn lemma_update(rows: Seq<LedgerRow>, at: int, row: LedgerRow)
    requires
        unique(rows),
        0 <= at < rows.len(),
        row.barcode@ == rows[at].barcode@,
    ensures
        unique(rows.update(at, row)),
        products_of(rows.update(at, row)) == products_of(rows).insert(
            row.barcode@,
            row.entry(),
        ),
{
    let after = rows.update(at, row);
    assert forall|i: int, j: int|
        0 <= i < after.len() && 0 <= j < after.len() && after[i].barcode@
            == after[j].barcode@ implies i == j by {
        assert(after[i].barcode@ == rows[i].barcode@);
        assert(after[j].barcode@ == rows[j].barcode@);
    }
    assert forall|b: Seq<char>|
        products_of(after).contains_key(b) <==> #[trigger] products_of(rows).insert(
            row.barcode@,
            row.entry(),
        ).contains_key(b) by {
        if products_of(after).contains_key(b) {
            let k = choose|k: int| row_of(after, b, k);
            assert(after[k].barcode@ == rows[k].barcode@);
            assert(row_of(rows, b, k));
        }
        if products_of(rows).contains_key(b) {
            let k = choose|k: int| row_of(rows, b, k);
            assert(after[k].barcode@ == rows[k].barcode@);
            assert(row_of(after, b, k));
        }
        if b == row.barcode@ {
            assert(row_of(after, b, at));
        }
    }
    assert forall|b: Seq<char>| products_of(after).contains_key(b) implies products_of(after)[b]
        == products_of(rows).insert(row.barcode@, row.entry())[b] by {
        let k = choose|k: int| row_of(after, b, k);
        lemma_row(after, k);
        assert(after[k].barcode@ == rows[k].barcode@);
        if k != at {
            lemma_row(rows, k);
        }
    }
    assert(products_of(after) =~= products_of(rows).insert(row.barcode@, row.entry()));
}

/// The products and their stages, held in memory.
#[derive(Debug, PartialEq, Eq)]
pub struct ProductLedger {
    rows: Vec<LedgerRow>,
}

impl View for ProductLedger {
    type V = Products;

    closed spec fn view(&self) -> Products {
        products_of(self.rows@)
    }
}

impl ProductLedger {
    /// The invariant of the ledger: no barcode has two rows.
    pub closed spec fn wf(&self) -> bool {
        unique(self.rows@)
    }

    /// A ledger without products.
    pub fn new() -> (ledger: ProductLedger)
        ensures
            ledger.wf(),
            ledger@ == Map::<Seq<char>, Entry>::empty(),
    {
        let ledger = ProductLedger { rows: Vec::new() };
        assert(ledger@ =~= Map::<Seq<char>, Entry>::empty());
        ledger
    }

    /// The row of a barcode, if there is one.
    fn find(&self, barcode: &str) -> (at: Option<usize>)
        requires
            self.wf(),
        ensures
            match at {
                Some(i) => row_of(self.rows@, barcode@, i as int),
                None => !self@.contains_key(barcode@),
            },
    {
        let mut i: usize = 0;
        while i < self.rows.len()
            invariant
                i <= self.rows@.len(),
                forall|k: int| 0 <= k < i ==> self.rows@[k].barcode@ != barcode@,
            decreases self.rows@.len() - i,
        {
            if same_text(self.rows[i].barcode.as_str(), barcode) {
                return Some(i);
            }
            i += 1;
        }
        proof {
            if self@.contains_key(barcode@) {
                let k = choose|k: int| row_of(self.rows@, barcode@, k);
                assert(row_of(self.rows@, barcode@, k));
            }
        }
        None
    }

    /// How many products the ledger holds.
    pub fn len(&self) -> (n: usize)
        requires
            self.wf(),
        ensures
            n == self@.dom().len(),
            self@.dom().finite(),
    {
        proof {
            self.lemma_count();
        }
        self.rows.len()
    }

    proof fn lemma_count(&self)
        requires
            self.wf(),
        ensures
            self@.dom().finite(),
            self@.dom().len() == self.rows@.len(),
    {
        lemma_count_rows(self.rows@);
    }

    /// The stage of a product, if the ledger holds it.
    pub fn stage_of(&self, barcode: &str) -> (stage: Option<StageEnum>)
        requires
            self.wf(),
        ensures
            stage == if self@.contains_key(barcode@) {
                Some(self@[barcode@].stage)
            } else {
                None
            },
    {
        match self.find(barcode) {
            Some(i) => {
                proof {
                    lemma_row(self.rows@, i as int);
                }
                Some(self.rows[i].stage)
            },
            None => None,
        }
    }

    /// What the ledger holds of a product, if it holds it.
    pub fn row(&self, barcode: &str) -> (found: Option<LedgerRow>)
        requires
            self.wf(),
        ensures
            match found {
                Some(row) => self@.contains_key(barcode@) && row.barcode@ == barcode@
                    && row.entry() == self@[barcode@],
                None => !self@.contains_key(barcode@),
            },
    {
        match self.find(barcode) {
            Some(i) => {
                proof {
                    lemma_row(self.rows@, i as int);
                }
                Some(
                    LedgerRow {
                        barcode: self.rows[i].barcode.clone(),
                        init_time: self.rows[i].init_time,
                        stage: self.rows[i].stage,
                        profile_id: self.rows[i].profile_id,
                        report_id: self.rows[i].report_id,
                    },
                )
            },
            None => None,
        }
    }

    /// Creates a product at `Initialized`, unless the barcode is taken.
    pub fn init(&mut self, barcode: &str, now: i64) -> (out: Result<(), GenericError>)
        requires
            old(self).wf(),
        ensures
            final(self).wf(),
            (final(self)@, out) == init_step(old(self)@, barcode@, now),
    {
        match self.find(barcode) {
            Some(i) => {
                proof {
                    lemma_row(self.rows@, i as int);
                }
                Err(GenericError::ProductDuplicateError)
            },
            None => {
                let row = LedgerRow {
                    barcode: barcode.to_owned(),
                    init_time: now,
                    stage: StageEnum::Initialized,
                    profile_id: None,
                    report_id: None,
                };
                proof {
                    lemma_push(self.rows@, row);
                }
                self.rows.push(row);
                Ok(())
            },
        }
    }

    /// Applies one conditional update and tells how many rows it changed.
    pub fn conditional_update(&mut self, barcode: &str, update: &StageUpdate) -> (rows: usize)
        requires
            old(self).wf(),
        ensures
            final(self).wf(),
            (final(self)@, rows as nat) == update_step(old(self)@, barcode@, *update),
            rows <= 1,
    {
        match self.find(barcode) {
            None => 0,
            Some(i) => {
                proof {
                    lemma_row(self.rows@, i as int);
                }
                if !update.from.contains(self.rows[i].stage) {
                    return 0;
                }
                let row = LedgerRow {
                    barcode: self.rows[i].barcode.clone(),
                    init_time: self.rows[i].init_time,
                    stage: update.to,
                    profile_id: if update.profile_id.is_some() {
                        update.profile_id
                    } else {
                        self.rows[i].profile_id
                    },
                    report_id: if update.report_id.is_some() {
                        update.report_id
                    } else {
                        self.rows[i].report_id
                    },
                };
                proof {
                    lemma_update(self.rows@, i as int, row);
                }
                self.rows.set(i, row);
                1
            },
        }
    }

    /// Attaches a profile to a product that is still at `Initialized`.
    pub fn submit(&mut self, barcode: &str, profile_id: i32) -> (out: Result<(), GenericError>)
        requires
            old(self).wf(),
        ensures
            final(self).wf(),
            (final(self)@, out) == submit_step(old(self)@, barcode@, profile_id),
    {
        let update = StageUpdate::submit(profile_id);
        let rows = self.conditional_update(barcode, &update);
        outcome(rows, GenericError::ProductReuseError)
    }

    /// Publishes a report for a product at `Submitted` or `Sampled`.
    pub fn publish(&mut self, barcode: &str, report_id: u128) -> (out: Result<(), GenericError>)
        requires
            old(self).wf(),
        ensures
            final(self).wf(),
            (final(self)@, out) == publish_step(old(self)@, barcode@, report_id),
    {
        let update = StageUpdate::publish(report_id);
        let rows = self.conditional_update(barcode, &update);
        outcome(rows, GenericError::ProductReuseError)
    }

    /// Records that a sample was taken and tells whose profile is to carry
    /// its time.
    pub fn record_sample(&mut self, barcode: &str) -> (out: Result<i32, GenericError>)
        requires
            old(self).wf(),
        ensures
            final(self).wf(),
            (final(self)@, out) == sample_step(old(self)@, barcode@),
    {
        let at = match self.find(barcode) {
            Some(i) => i,
            None => { return Err(GenericError::StoreError(StoreFailure::NotFound)); },
        };
        proof {
            lemma_row(self.rows@, at as int);
        }
        let profile_id = match self.rows[at].profile_id {
            Some(profile_id) => profile_id,
            None => { return Err(GenericError::ProfileNotExistError); },
        };
        let update = StageUpdate::sample();
        let _ = self.conditional_update(barcode, &update);
        Ok(profile_id)
    }
}

/// One call on the ledger.
pub enum Operation {
    Init { barcode: Seq<char>, now: i64 },
    Submit { barcode: Seq<char>, profile_id: i32 },
    Sample { barcode: Seq<char> },
    Publish { barcode: Seq<char>, report_id: u128 },
}

/// The products after one call, and whether the call succeeded.
pub open spec fn step(products: Products, op: Operation) -> (Products, bool) {
    match op {
        Operation::Init { barcode, now } => {
            let (after, out) = init_step(products, barcode, now);
            (after, out is Ok)
        },
        Operation::Submit { barcode, profile_id } => {
            let (after, out) = submit_step(products, barcode, profile_id);
            (after, out is Ok)
        },
        Operation::Sample { barcode } => {
            let (after, out) = sample_step(products, barcode);
            (after, out is Ok)
        },
        Operation::Publish { barcode, report_id } => {
            let (after, out) = publish_step(products, barcode, report_id);
            (after, out is Ok)
        },
    }
}

/// Whether a call is a submission for `barcode`.
pub open spec fn is_submit_for(op: Operation, barcode: Seq<char>) -> bool {
    match op {
        Operation::Submit { barcode: b, .. } => b == barcode,
        _ => false,
    }
}

/// How many of the calls in `ops`, made one after the other, are submissions
/// for `barcode` that succeed.
pub open spec fn submits_won(products: Products, ops: Seq<Operation>, barcode: Seq<char>) -> nat
    decreases ops.len(),
{
    if ops.len() == 0 {
        0
    } else {
        let (after, won) = step(products, ops[0]);
        let here: nat = if won && is_submit_for(ops[0], barcode) {
            1
        } else {
            0
        };
        here + submits_won(after, ops.drop_first(), barcode)
    }
}

/// Whether the links of every product fit its stage: a product has a profile
/// exactly when it has left `Initialized`, and a report exactly when it is
/// `Finished`.
pub open spec fn consistent(products: Products) -> bool {
    forall|b: Seq<char>| #[trigger]
        products.contains_key(b) ==> {
            &&& products[b].profile_id is Some <==> products[b].stage != StageEnum::Initialized
            &&& products[b].report_id is Some <==> products[b].stage == StageEnum::Finished
        }
}

/// Creating a product twice: the first call succeeds on a barcode that was
/// not there, the second is refused as a duplicate and changes nothing.
pub proof fn init_twice(products: Products, barcode: Seq<char>, first: i64, second: i64)
    requires
        !products.contains_key(barcode),
    ensures
        init_step(products, barcode, first).1 == Ok::<(), GenericError>(()),
        init_step(init_step(products, barcode, first).0, barcode, second) == (
            init_step(products, barcode, first).0,
            Err::<(), GenericError>(GenericError::ProductDuplicateError),
        ),
{
}

/// Whatever the ledger held, a barcode that was just used for creating a
/// product cannot be used for creating another.
pub proof fn init_again_is_refused(products: Products, barcode: Seq<char>, first: i64, second: i64)
    ensures
        init_step(init_step(products, barcode, first).0, barcode, second).1 == Err::<
            (),
            GenericError,
        >(GenericError::ProductDuplicateError),
{
}

/// No call takes a product away or takes it back to an earlier stage.
pub proof fn stages_only_advance(products: Products, op: Operation, barcode: Seq<char>)
    requires
        products.contains_key(barcode),
    ensures
        step(products, op).0.contains_key(barcode),
        step(products, op).0[barcode].stage.rank() >= products[barcode].stage.rank(),
        step(products, op).0[barcode].init_time == products[barcode].init_time,
{
}

/// Every call keeps the links of the products in line with their stages.
pub proof fn steps_keep_consistency(products: Products, op: Operation)
    requires
        consistent(products),
    ensures
        consistent(step(products, op).0),
{
    let after = step(products, op).0;
    assert forall|b: Seq<char>| #[trigger] after.contains_key(b) implies {
        &&& after[b].profile_id is Some <==> after[b].stage != StageEnum::Initialized
        &&& after[b].report_id is Some <==> after[b].stage == StageEnum::Finished
    } by {
        if products.contains_key(b) {
            assert(products[b].profile_id is Some <==> products[b].stage != StageEnum::Initialized);
        }
    }
}

/// A report can be published for a product exactly when the product is at
/// `Submitted` or at `Sampled`: from both it leads to `Finished`, and from
/// `Initialized` it is refused and changes nothing.
pub proof fn publish_reachability(products: Products, barcode: Seq<char>, report_id: u128)
    ensures
        publish_step(products, barcode, report_id).1 is Ok <==> products.contains_key(barcode) && (
        products[barcode].stage == StageEnum::Submitted || products[barcode].stage
            == StageEnum::Sampled),
        publish_step(products, barcode, report_id).1 is Ok ==> {
            let after = publish_step(products, barcode, report_id).0;
            after.contains_key(barcode) && after[barcode].stage == StageEnum::Finished
                && after[barcode].report_id == Some(report_id)
        },
        publish_step(products, barcode, report_id).1 is Err ==> publish_step(
            products,
            barcode,
            report_id,
        ) == (products, Err::<(), GenericError>(GenericError::ProductReuseError)),
{
}

/// Once a product has left `Initialized`, no submission for it succeeds, in
/// whatever calls follow.
pub proof fn no_submit_after_the_first(
    products: Products,
    ops: Seq<Operation>,
    barcode: Seq<char>,
)
    requires
        products.contains_key(barcode),
        products[barcode].stage != StageEnum::Initialized,
    ensures
        submits_won(products, ops, barcode) == 0,
    decreases ops.len(),
{
    if ops.len() > 0 {
        stages_only_advance(products, ops[0], barcode);
        no_submit_after_the_first(step(products, ops[0]).0, ops.drop_first(), barcode);
    }
}

/// In any sequence of calls, at most one submission for a barcode succeeds.
pub proof fn submit_wins_at_most_once(
    products: Products,
    ops: Seq<Operation>,
    barcode: Seq<char>,
)
    ensures
        submits_won(products, ops, barcode) <= 1,
    decreases ops.len(),
{
    if ops.len() > 0 {
        let (after, won) = step(products, ops[0]);
        if won && is_submit_for(ops[0], barcode) {
            no_submit_after_the_first(after, ops.drop_first(), barcode);
        } else {
            submit_wins_at_most_once(after, ops.drop_first(), barcode);
        }
    }
}

/// Whether every call is a submission for `barcode`.
pub open spec fn all_submit(ops: Seq<Operation>, barcode: Seq<char>) -> bool {
    forall|i: int| 0 <= i < ops.len() ==> is_submit_for(#[trigger] ops[i], barcode)
}

/// Of any number of submissions that race for a fresh product, in whatever
/// order the store takes them, exactly one succeeds.
pub proof fn one_winner_among_racers(
    products: Products,
    ops: Seq<Operation>,
    barcode: Seq<char>,
)
    requires
        products.contains_key(barcode),
        products[barcode].stage == StageEnum::Initialized,
        ops.len() >= 1,
        all_submit(ops, barcode),
    ensures
        submits_won(products, ops, barcode) == 1,
{
    let (after, won) = step(products, ops[0]);
    assert(is_submit_for(ops[0], barcode));
    assert(won);
    no_submit_after_the_first(after, ops.drop_first(), barcode);
}

proof fn lemma_count_rows(rows: Seq<LedgerRow>)
    requires
        unique(rows),
    ensures
        products_of(rows).dom().finite(),
        products_of(rows).dom().len() == rows.len(),
    decreases rows.len(),
{
    if rows.len() == 0 {
        assert(products_of(rows).dom() =~= Set::<Seq<char>>::empty());
    } else {
        let head = rows.drop_last();
        let last = rows.last();
        assert(unique(head)) by {
            assert forall|i: int, j: int|
                0 <= i < head.len() && 0 <= j < head.len() && head[i].barcode@
                    == head[j].barcode@ implies i == j by {
                assert(rows[i].barcode@ == rows[j].barcode@);
            }
        }
        lemma_count_rows(head);
        if products_of(head).contains_key(last.barcode@) {
            let k = choose|k: int| row_of(head, last.barcode@, k);
            assert(rows[k].barcode@ == rows[rows.len() - 1].barcode@);
        }
        lemma_push(head, last);
        assert(head.push(last) =~= rows);
        assert(products_of(rows).dom() =~= products_of(head).dom().insert(last.barcode@));
    }
}

} // verus!
