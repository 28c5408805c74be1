//! What the progress bars show of transactions that install packages.
//!
//! The bars themselves belong to the caller. A callback leaves commands for
//! them, which the caller takes and carries out in order.

use std::cmp::Ordering;

use vstd::prelude::*;
use vstd::string::*;

use crate::reporter_laws;
use crate::transactions::{OperationTable, TransactionId};

verus! {

/// The title of the bar of prepared packages.
pub const PREPARING_TITLE: &'static str = "preparing packages";

/// The title of the bar of installed packages.
pub const INSTALLING_TITLE: &'static str = "installing";

/// A package that is to be installed or removed.
#[derive(Debug, Clone, PartialEq, Eq)]
pub struct PackageWithSize {
    pub name: String,
    pub size: u64,
}

/// A package that is to be installed or removed, in terms of characters.
pub struct PackageModel {
    pub name: Seq<char>,
    pub size: u64,
}

impl DeepView for PackageWithSize {
    type V = PackageModel;

    open spec fn deep_view(&self) -> PackageModel {
        PackageModel { name: self.name@, size: self.size }
    }
}

/// How packages of these sizes are ordered: the larger one comes first.
pub open spec fn larger_first(size: u64, other: u64) -> Ordering {
    if size > other {
        Ordering::Less
    } else if size == other {
        Ordering::Equal
    } else {
        Ordering::Greater
    }
}

impl PackageWithSize {
    /// The name of the package.
    pub fn name(&self) -> (r: &str)
        ensures
            r@ == self.name@,
    {
        self.name.as_str()
    }

    /// The size of the package.
    pub fn size(&self) -> (r: u64)
        ensures
            r == self.size,
    {
        self.size
    }

    /// Orders packages by size, the larger one first.
    pub fn cmp(&self, other: &Self) -> (r: Ordering)
        ensures
            r == larger_first(self.size, other.size),
    {
        if self.size > other.size {
            Ordering::Less
        } else if self.size == other.size {
            Ordering::Equal
        } else {
            Ordering::Greater
        }
    }
}

impl PartialOrd for PackageWithSize {
    fn partial_cmp(&self, other: &Self) -> (r: Option<Ordering>) {
        Some(PackageWithSize::cmp(self, other))
    }
}

impl vstd::std_specs::cmp::PartialOrdSpecImpl for PackageWithSize {
    open spec fn obeys_partial_cmp_spec() -> bool {
        true
    }

    open spec fn partial_cmp_spec(&self, other: &Self) -> Option<Ordering> {
        Some(larger_first(self.size, other.size))
    }
}

/// What a record says of a package.
#[derive(Debug)]
pub struct Record<T> {
    /// The normalized name of the package.
    pub name: T,
    pub size: Option<u64>,
}

/// An operation of a transaction.
#[derive(Debug)]
pub struct Operation<T> {
    pub install: Option<Record<T>>,
    pub remove: Option<Record<T>>,
}

impl DeepView for Record<String> {
    type V = Record<Seq<char>>;

    open spec fn deep_view(&self) -> Record<Seq<char>> {
        Record { name: self.name@, size: self.size }
    }
}

impl DeepView for Operation<String> {
    type V = Operation<Seq<char>>;

    open spec fn deep_view(&self) -> Operation<Seq<char>> {
        Operation { install: self.install.deep_view(), remove: self.remove.deep_view() }
    }
}

/// An operation, in terms of characters.
pub type OperationModel = Operation<Seq<char>>;

/// A place that a bar is asked for. It is answered with the number of the
/// place.
#[derive(Debug, Clone, PartialEq, Eq)]
pub enum Request<P> {
    /// A place on the bar of installed packages, for a package that is queued.
    Queue { package: P },
    /// A place on the bar of prepared packages, for the record that the
    /// operation installs.
    StartEntry { operation: usize },
}

impl DeepView for Request<PackageWithSize> {
    type V = Request<PackageModel>;

    open spec fn deep_view(&self) -> Request<PackageModel> {
        match self {
            Request::Queue { package } => Request::Queue { package: package.deep_view() },
            Request::StartEntry { operation } => Request::StartEntry { operation: *operation },
        }
    }
}

/// What a bar is told to do with one of its places.
#[derive(Debug, Clone, Copy, PartialEq, Eq)]
#[allow(inconsistent_fields)]
pub enum BarCommand {
    /// The bar of prepared packages: a cached package is validated.
    ValidationStart { entry: usize },
    /// The bar of prepared packages: a cached package was validated.
    ValidationComplete { entry: usize },
    /// The bar of prepared packages: a package is downloaded.
    DownloadStart { entry: usize },
    /// The bar of prepared packages: so much of a package was downloaded.
    DownloadProgress { entry: usize, progress: u64, total: Option<u64> },
    /// The bar of prepared packages: a package was downloaded.
    DownloadComplete { entry: usize },
    /// The bar of prepared packages: a package is in the cache.
    EntryFinished { entry: usize },
    /// The bar of prepared packages: a package is built.
    BuildStart { bar: usize },
    /// The bar of prepared packages: the build of a package is over.
    BuildFinished { bar: usize },
    /// The bar of prepared packages: start over.
    ClearPreparing,
    /// The bar of installed packages: a package is linked or unlinked.
    LinkStart { link: usize },
    /// The bar of installed packages: an operation is over.
    LinkFinish { link: usize },
    /// The bar of installed packages: start over.
    ClearInstalling,
}

/// The package that an operation is about: the one it installs, or else the one
/// it removes.
pub open spec fn subject(operation: OperationModel) -> Option<PackageModel> {
    let record = match operation.install {
        Some(record) => Some(record),
        None => operation.remove,
    };
    match record {
        Some(record) => Some(
            PackageModel {
                name: record.name,
                size: match record.size {
                    Some(size) => size,
                    None => 1,
                },
            },
        ),
        None => None,
    }
}

/// The places that are asked for on account of `operation`, the one with the
/// number `index` in its transaction.
pub open spec fn operation_requests(operation: OperationModel, index: usize) -> Seq<
    Request<PackageModel>,
> {
    let queued = match subject(operation) {
        Some(package) => seq![Request::Queue { package }],
        None => Seq::empty(),
    };
    if operation.install is Some {
        queued.push(Request::StartEntry { operation: index })
    } else {
        queued
    }
}

/// The places that are asked for on account of a transaction.
pub open spec fn requests_of(operations: Seq<OperationModel>) -> Seq<Request<PackageModel>>
    decreases operations.len(),
{
    if operations.len() == 0 {
        Seq::empty()
    } else {
        requests_of(operations.drop_last()) + operation_requests(
            operations.last(),
            (operations.len() - 1) as usize,
        )
    }
}

/// How many places are asked for before the operation with the number `index`.
pub open spec fn slot(operations: Seq<OperationModel>, index: int) -> int {
    requests_of(operations.take(index)).len() as int
}

/// The package that an operation is about.
fn subject_of(operation: &Operation<String>) -> (r: Option<PackageWithSize>)
    ensures
        r.deep_view() == subject(operation.deep_view()),
        operation.install matches Some(record) ==> r matches Some(package) && ({
            &&& package.name@ == record.name@
            &&& record.size is Some ==> record.size == Some(package.size)
            &&& record.size is None ==> package.size == 1
        }),
        r is None <==> operation.install is None && operation.remove is None,
{
    let record = match &operation.install {
        Some(record) => record,
        None => match &operation.remove {
            Some(record) => record,
            None => {
                return None;
            },
        },
    };
    let size: u64 = match record.size {
        Some(size) => size,
        None => 1,
    };
    Some(PackageWithSize { name: record.name.clone(), size })
}

/// The places that are to be asked for when a transaction starts.
pub fn transaction_requests(operations: &Vec<Operation<String>>) -> (r: Vec<
    Request<PackageWithSize>,
>)
    ensures
        r.deep_view() == requests_of(operations.deep_view()),
        forall|i: int|
            0 <= i < operations@.len() ==> ((#[trigger] operations@[i]).install matches Some(record)
                ==> exists|at: int|
                0 <= at < r@.len() && (#[trigger] r@[at] matches Request::Queue { package } && ({
                    &&& package.name@ == record.name@
                    &&& record.size is Some ==> record.size == Some(package.size)
                    &&& record.size is None ==> package.size == 1
                }))),
{
    let mut requests: Vec<Request<PackageWithSize>> = Vec::new();
    let mut i: usize = 0;
    assert(requests.deep_view() =~= requests_of(operations.deep_view().take(0)));
    while i < operations.len()
        invariant
            i <= operations.len(),
            requests.deep_view() == requests_of(operations.deep_view().take(i as int)),
        decreases operations.len() - i,
    {
        let ghost all = operations.deep_view();
        assert(all.take(i + 1).drop_last() =~= all.take(i as int));
        assert(all.take(i + 1).last() == operations[i as int].deep_view());
        let ghost before = requests.deep_view();
        match subject_of(&operations[i]) {
            Some(package) => {
                let ghost queued: Request<PackageModel> = Request::Queue {
                    package: package.deep_view(),
                };
                requests.push(Request::Queue { package });
                assert(requests.deep_view() =~= before.push(queued));
            },
            None => {},
        }
        let ghost between = requests.deep_view();
        if operations[i].install.is_some() {
            requests.push(Request::StartEntry { operation: i });
            assert(requests.deep_view() =~= between.push(Request::StartEntry { operation: i }));
        }
        assert(requests.deep_view() =~= before + operation_requests(all[i as int], i));
        i += 1;
    }
    assert(operations.deep_view().take(i as int) =~= operations.deep_view());
    proof {
        let all = operations.deep_view();
        assert forall|k: int|
            0 <= k < operations@.len() && (#[trigger] operations@[k]).install is Some implies ({
            let record = operations@[k].install->0;
            exists|at: int|
                0 <= at < requests@.len() && (#[trigger] requests@[at] matches Request::Queue {
                    package,
                } && ({
                    &&& package.name@ == record.name@
                    &&& record.size is Some ==> record.size == Some(package.size)
                    &&& record.size is None ==> package.size == 1
                }))
        }) by {
            reporter_laws::the_installed_record_is_queued(all, k as usize);
            assert(all[k] == operations@[k].deep_view());
            let at = reporter_laws::asked_before(all, k);
            assert(requests.deep_view()[at] == requests@[at].deep_view());
        }
    }
    requests
}

/// What is known of all transactions under way.
#[derive(Debug)]
pub struct CombinedInstallReporterInner {
    next_id: usize,
    operation_link_id: OperationTable,
    cache_entry_id: OperationTable,
    commands: Vec<BarCommand>,
}

/// What is known of all transactions under way.
pub struct InnerModel {
    /// The number of the next transaction.
    pub next_id: usize,
    /// The places of operations on the bar of installed packages.
    pub links: Map<(TransactionId, usize), usize>,
    /// The places of operations on the bar of prepared packages.
    pub entries: Map<(TransactionId, usize), usize>,
    /// The commands that the bars have not carried out yet.
    pub commands: Seq<BarCommand>,
}

impl View for CombinedInstallReporterInner {
    type V = InnerModel;

    closed spec fn view(&self) -> InnerModel {
        InnerModel {
            next_id: self.next_id,
            links: self.operation_link_id@,
            entries: self.cache_entry_id@,
            commands: self.commands@,
        }
    }
}

/// `inner` with one more command.
pub open spec fn commanded(inner: InnerModel, command: BarCommand) -> InnerModel {
    InnerModel { commands: inner.commands.push(command), ..inner }
}

/// The places of operations after some of those of transaction `id` were given
/// places: each that `placed` picks has the one that `place` says.
pub open spec fn with_places(
    places: Map<(TransactionId, usize), usize>,
    id: TransactionId,
    placed: spec_fn(int) -> bool,
    place: spec_fn(int) -> usize,
) -> Map<(TransactionId, usize), usize> {
    Map::new(
        |k: (TransactionId, usize)| places.contains_key(k) || (k.0 == id && placed(k.1 as int)),
        |k: (TransactionId, usize)|
            if k.0 == id && placed(k.1 as int) {
                place(k.1 as int)
            } else {
                places[k]
            },
    )
}

/// What is known after transaction `id` has started, where `replies` are the
/// places that were asked for. Each operation that installs or removes has the
/// place of its package, and each that installs has the place of its record,
/// which was asked for next.
pub open spec fn transaction_started(
    inner: InnerModel,
    id: TransactionId,
    operations: Seq<OperationModel>,
    replies: Seq<usize>,
) -> InnerModel {
    InnerModel {
        links: with_places(
            inner.links,
            id,
            |i: int| 0 <= i < operations.len() && subject(operations[i]) is Some,
            |i: int| replies[slot(operations, i)],
        ),
        entries: with_places(
            inner.entries,
            id,
            |i: int| 0 <= i < operations.len() && operations[i].install is Some,
            |i: int| replies[slot(operations, i) + 1],
        ),
        ..inner
    }
}

/// What is known after an operation has begun to link or unlink.
pub open spec fn link_started(
    inner: InnerModel,
    id: TransactionId,
    operation: usize,
) -> InnerModel {
    if inner.links.contains_key((id, operation)) {
        commanded(inner, BarCommand::LinkStart { link: inner.links[(id, operation)] })
    } else {
        inner
    }
}

/// What is known after an operation is over.
pub open spec fn operation_completed(
    inner: InnerModel,
    id: TransactionId,
    operation: usize,
) -> InnerModel {
    if inner.links.contains_key((id, operation)) {
        InnerModel {
            links: inner.links.remove((id, operation)),
            ..commanded(inner, BarCommand::LinkFinish { link: inner.links[(id, operation)] })
        }
    } else {
        inner
    }
}

proof fn slots_grow(operations: Seq<OperationModel>, i: int)
    requires
        0 <= i < operations.len(),
    ensures
        slot(operations, i + 1) == slot(operations, i) + (if subject(operations[i]) is Some {
            1int
        } else {
            0
        }) + (if operations[i].install is Some {
            1int
        } else {
            0
        }),
        operations[i].install is Some ==> subject(operations[i]) is Some,
{
    assert(operations.take(i + 1).drop_last() =~= operations.take(i));
    assert(operations.take(i + 1).last() == operations[i]);
}

proof fn slots_stay(operations: Seq<OperationModel>, i: int, j: int)
    requires
        0 <= i <= j <= operations.len(),
    ensures
        slot(operations, i) <= slot(operations, j),
    decreases j - i,
{
    if i < j {
        slots_grow(operations, i);
        slots_stay(operations, i + 1, j);
    }
}

proof fn one_more_operation(
    inner: InnerModel,
    id: TransactionId,
    operations: Seq<OperationModel>,
    replies: Seq<usize>,
    i: usize,
)
    requires
        i < operations.len(),
    ensures
        ({
            let before = transaction_started(inner, id, operations.take(i as int), replies);
            let after = transaction_started(inner, id, operations.take(i + 1), replies);
            let at = slot(operations, i as int);
            let operation = operations[i as int];
            &&& after.links == if subject(operation) is Some {
                before.links.insert((id, i), replies[at])
            } else {
                before.links
            }
            &&& after.entries == if operation.install is Some {
                before.entries.insert((id, i), replies[at + 1])
            } else {
                before.entries
            }
        }),
{
    let shorter = operations.take(i as int);
    let longer = operations.take(i + 1);
    assert forall|j: int| 0 <= j <= i implies #[trigger] slot(longer, j) == slot(
        operations,
        j,
    ) by {
        assert(longer.take(j) =~= operations.take(j));
    }
    assert forall|j: int| 0 <= j <= i implies #[trigger] slot(shorter, j) == slot(
        operations,
        j,
    ) by {
        assert(shorter.take(j) =~= operations.take(j));
    }
    let before = transaction_started(inner, id, shorter, replies);
    let after = transaction_started(inner, id, longer, replies);
    let at = slot(operations, i as int);
    if subject(operations[i as int]) is Some {
        assert(after.links =~= before.links.insert((id, i), replies[at]));
    } else {
        assert(after.links =~= before.links);
    }
    if operations[i as int].install is Some {
        assert(after.entries =~= before.entries.insert((id, i), replies[at + 1]));
    } else {
        assert(after.entries =~= before.entries);
    }
}

impl CombinedInstallReporterInner {
    /// Nothing is under way.
    pub fn new() -> (r: Self)
        ensures
            r@ == (InnerModel {
                next_id: 0,
                links: Map::empty(),
                entries: Map::empty(),
                commands: Seq::empty(),
            }),
    {
        CombinedInstallReporterInner {
            next_id: 0,
            operation_link_id: OperationTable::new(),
            cache_entry_id: OperationTable::new(),
            commands: Vec::new(),
        }
    }

    /// Takes the commands that the bars have not carried out yet.
    pub fn take_commands(&mut self) -> (r: Vec<BarCommand>)
        ensures
            r@ == old(self)@.commands,
            final(self)@ == (InnerModel { commands: Seq::empty(), ..old(self)@ }),
    {
        let mut commands: Vec<BarCommand> = Vec::new();
        std::mem::swap(&mut commands, &mut self.commands);
        commands
    }

    /// Leaves a command for the bars.
    pub(crate) fn command(&mut self, command: BarCommand)
        ensures
            final(self)@ == commanded(old(self)@, command),
    {
        self.commands.push(command);
    }

    /// The number of the next transaction. After the largest number comes zero.
    pub(crate) fn allocate(&mut self) -> (r: usize)
        ensures
            r == old(self)@.next_id,
            final(self)@ == (InnerModel {
                next_id: if r == usize::MAX {
                    0
                } else {
                    (r + 1) as usize
                },
                ..old(self)@
            }),
    {
        let id: usize = self.next_id;
        self.next_id = if id == usize::MAX {
            0
        } else {
            id + 1
        };
        id
    }

    /// Records the places of the operations of a transaction that starts.
    /// `replies` answer the requests of the transaction, in their order.
    pub fn on_transaction_start(
        &mut self,
        id: TransactionId,
        operations: &Vec<Operation<String>>,
        replies: &Vec<usize>,
    )
        requires
            replies@.len() == requests_of(operations.deep_view()).len(),
        ensures
            final(self)@ == transaction_started(
                old(self)@,
                id,
                operations.deep_view(),
                replies@,
            ),
    {
        let ghost before = self@;
        let ghost all = operations.deep_view();
        let mut at: usize = 0;
        let mut i: usize = 0;
        proof {
            let none = transaction_started(before, id, all.take(0), replies@);
            assert(none.links =~= before.links);
            assert(none.entries =~= before.entries);
            assert(all.take(all.len() as int) =~= all);
        }
        while i < operations.len()
            invariant
                i <= operations.len(),
                all == operations.deep_view(),
                at == slot(all, i as int),
                slot(all, all.len() as int) == replies.len(),
                self@ == transaction_started(before, id, all.take(i as int), replies@),
            decreases operations.len() - i,
        {
            proof {
                slots_grow(all, i as int);
                slots_stay(all, i + 1, all.len() as int);
                one_more_operation(before, id, all, replies@, i);
            }
            let operation = &operations[i];
            assert(all[i as int] == operation.deep_view());
            let installs = operation.install.is_some();
            if installs || operation.remove.is_some() {
                self.operation_link_id.insert(id, i, replies[at]);
                at += 1;
            }
            if installs {
                self.cache_entry_id.insert(id, i, replies[at]);
                at += 1;
            }
            i += 1;
        }
    }

    /// Nothing is shown of the start of an operation.
    pub fn on_transaction_operation_start(&mut self, _id: TransactionId, _operation: usize)
        ensures
            *final(self) == *old(self),
    {
    }

    /// The place of an operation on the bar of prepared packages.
    pub fn cache_entry(&self, id: TransactionId, operation: usize) -> (r: Option<usize>)
        ensures
            r == if self@.entries.contains_key((id, operation)) {
                Some(self@.entries[(id, operation)])
            } else {
                None
            },
    {
        self.cache_entry_id.get(id, operation)
    }

    /// The place on the bar of prepared packages that an operation was given
    /// when its transaction started.
    pub fn on_populate_cache_start(&mut self, id: TransactionId, operation: usize) -> (r: usize)
        requires
            old(self)@.entries.contains_key((id, operation)),
        ensures
            r == old(self)@.entries[(id, operation)],
            *final(self) == *old(self),
    {
        self.cache_entry_id.get(id, operation).unwrap()
    }

    /// A cached package is validated.
    pub fn on_validate_start(&mut self, _id: TransactionId, cache_entry: usize) -> (r: usize)
        ensures
            r == cache_entry,
            final(self)@ == commanded(
                old(self)@,
                BarCommand::ValidationStart { entry: cache_entry },
            ),
    {
        self.command(BarCommand::ValidationStart { entry: cache_entry });
        cache_entry
    }

    /// A cached package was validated.
    pub fn on_validate_complete(&mut self, _id: TransactionId, validation_id: usize)
        ensures
            final(self)@ == commanded(
                old(self)@,
                BarCommand::ValidationComplete { entry: validation_id },
            ),
    {
        self.command(BarCommand::ValidationComplete { entry: validation_id });
    }

    /// A package is downloaded.
    pub fn on_download_start(&mut self, _id: TransactionId, cache_entry: usize) -> (r: usize)
        ensures
            r == cache_entry,
            final(self)@ == commanded(
                old(self)@,
                BarCommand::DownloadStart { entry: cache_entry },
            ),
    {
        self.command(BarCommand::DownloadStart { entry: cache_entry });
        cache_entry
    }

    /// So much of a package was downloaded.
    pub fn on_download_progress(
        &mut self,
        _id: TransactionId,
        cache_entry: usize,
        progress: u64,
        total: Option<u64>,
    )
        ensures
            final(self)@ == commanded(
                old(self)@,
                BarCommand::DownloadProgress { entry: cache_entry, progress, total },
            ),
    {
        self.command(BarCommand::DownloadProgress { entry: cache_entry, progress, total });
    }

    /// A package was downloaded.
    pub fn on_download_completed(&mut self, _id: TransactionId, cache_entry: usize)
        ensures
            final(self)@ == commanded(
                old(self)@,
                BarCommand::DownloadComplete { entry: cache_entry },
            ),
    {
        self.command(BarCommand::DownloadComplete { entry: cache_entry });
    }

    /// A package is in the cache.
    pub fn on_populate_cache_complete(&mut self, _id: TransactionId, cache_entry: usize)
        ensures
            final(self)@ == commanded(
                old(self)@,
                BarCommand::EntryFinished { entry: cache_entry },
            ),
    {
        self.command(BarCommand::EntryFinished { entry: cache_entry });
    }

    /// An operation begins to unlink a package.
    pub fn on_unlink_start(&mut self, id: TransactionId, operation: usize) -> (r: usize)
        ensures
            r == operation,
            final(self)@ == link_started(old(self)@, id, operation),
    {
        match self.operation_link_id.get(id, operation) {
            Some(link) => self.command(BarCommand::LinkStart { link }),
            None => {},
        }
        operation
    }

    /// Nothing is shown of the end of unlinking.
    pub fn on_unlink_complete(&mut self, _id: TransactionId, _index: usize)
        ensures
            *final(self) == *old(self),
    {
    }

    /// An operation begins to link a package.
    pub fn on_link_start(&mut self, id: TransactionId, operation: usize) -> (r: usize)
        ensures
            r == operation,
            final(self)@ == link_started(old(self)@, id, operation),
    {
        match self.operation_link_id.get(id, operation) {
            Some(link) => self.command(BarCommand::LinkStart { link }),
            None => {},
        }
        operation
    }

    /// Nothing is shown of the end of linking.
    pub fn on_link_complete(&mut self, _id: TransactionId, _index: usize)
        ensures
            *final(self) == *old(self),
    {
    }

    /// An operation is over.
    pub fn on_transaction_operation_complete(&mut self, id: TransactionId, operation: usize)
        ensures
            final(self)@ == operation_completed(old(self)@, id, operation),
    {
        let ghost links = self@.links;
        match self.operation_link_id.remove(id, operation) {
            Some(link) => self.command(BarCommand::LinkFinish { link }),
            None => {
                assert(links.remove((id, operation)) =~= links);
            },
        }
    }

    /// Nothing is shown of the end of a transaction.
    pub fn on_transaction_complete(&mut self, _id: TransactionId)
        ensures
            *final(self) == *old(self),
    {
    }
}

} // verus!
