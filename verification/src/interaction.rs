//! Interactions of accounts with content nodes: likes, admirations, grants
//! of funds and reports.
use vstd::prelude::*;
use crate::types::{AccountId, Balance, ContentHash};
use crate::storage::StorageMap;
use crate::currency::{CurrencyError, ReservableCurrency, transferred};
use crate::node;

verus! {

pub type LikeId = u64;

pub type AdmireId = u64;

pub type GrantId = u64;

pub type ReportId = u64;

#[derive(Clone, Copy, Debug, PartialEq, Eq, Structural)]
pub struct Like {
    pub from: AccountId,
    pub to: ContentHash,
}

#[derive(Clone, Copy, Debug, PartialEq, Eq, Structural)]
pub struct Admire {
    pub from: AccountId,
    pub to: ContentHash,
}

#[derive(Clone, Copy, Debug, PartialEq, Eq, Structural)]
pub struct Grant {
    pub from: AccountId,
    pub to: ContentHash,
    pub amount: Balance,
}

#[derive(Clone, Copy, Debug, PartialEq, Eq, Structural)]
pub struct Report {
    pub from: AccountId,
    pub target: ContentHash,
    pub reason: ContentHash,
}

/// What a successful call reports.
#[derive(Clone, Copy, Debug, PartialEq, Eq, Structural)]
pub enum InteractionEvent {
    /// (node, sender, like, the node's like count before this like)
    Liked(ContentHash, AccountId, LikeId, u64),
    /// (node, sender, node owner, admiration, the node's admiration count before this one)
    Admired(ContentHash, AccountId, AccountId, AdmireId, u64),
    /// (node, sender, node owner, amount, grant, the node's granted balance after this grant)
    Granted(ContentHash, AccountId, AccountId, Balance, GrantId, Balance),
    /// (node, sender, reason, report)
    Reported(ContentHash, AccountId, ContentHash, ReportId),
}

/// Why a call was refused.
#[derive(Clone, Copy, Debug, PartialEq, Eq, Structural)]
pub enum InteractionError {
    NodeDoesNotExist,
    AlreadyLiked,
    CannotAdmireYourself,
    AlreadyAdmired,
    CannotGrantYourself,
    AlreadyGranted,
    GrantNotPositive,
    CannotReportYourself,
    AlreadyReported,
    ExceedTotalMaxLikes,
    ExceedNodeMaxLikes,
    ExceedTotalMaxAdmires,
    ExceedNodeMaxAdmires,
    ExceedTotalMaxGrants,
    ExceedNodeMaxGrants,
    CurrencyNotEnoughForGrant,
    ExceedTotalMaxReports,
    Currency(CurrencyError),
}

impl InteractionError {
    /// The text of the message under which the runtime reports this error.
    pub open spec fn text(&self) -> Seq<char> {
        match self {
            InteractionError::NodeDoesNotExist => "Content Node does not exist"@,
            InteractionError::AlreadyLiked => "Already liked this Node."@,
            InteractionError::CannotAdmireYourself => "Can not admire yourself."@,
            InteractionError::AlreadyAdmired => "Already admired this Node."@,
            InteractionError::CannotGrantYourself => "Can not grant yourself."@,
            InteractionError::AlreadyGranted => "Already granted this Node."@,
            InteractionError::GrantNotPositive => "grant should more than 0."@,
            InteractionError::CannotReportYourself => "Can not report yourself."@,
            InteractionError::AlreadyReported => "Already reported this Node."@,
            InteractionError::ExceedTotalMaxLikes => "Exceed total max likes count"@,
            InteractionError::ExceedNodeMaxLikes => "Exceed node max likes count"@,
            InteractionError::ExceedTotalMaxAdmires => "Exceed total max admires count"@,
            InteractionError::ExceedNodeMaxAdmires => "Exceed node max admires count"@,
            InteractionError::ExceedTotalMaxGrants => "Exceed total max grants count"@,
            InteractionError::ExceedNodeMaxGrants => "Exceed node max grants count"@,
            InteractionError::CurrencyNotEnoughForGrant => "Currency not enough for Grant."@,
            InteractionError::ExceedTotalMaxReports => "Exceed total max reports count"@,
            InteractionError::Currency(e) => e.text(),
        }
    }

    /// The message under which the runtime reports this error.
    pub fn message(&self) -> (r: &'static str)
        ensures
            r@ == self.text(),
    {
        match self {
            InteractionError::NodeDoesNotExist => "Content Node does not exist",
            InteractionError::AlreadyLiked => "Already liked this Node.",
            InteractionError::CannotAdmireYourself => "Can not admire yourself.",
            InteractionError::AlreadyAdmired => "Already admired this Node.",
            InteractionError::CannotGrantYourself => "Can not grant yourself.",
            InteractionError::AlreadyGranted => "Already granted this Node.",
            InteractionError::GrantNotPositive => "grant should more than 0.",
            InteractionError::CannotReportYourself => "Can not report yourself.",
            InteractionError::AlreadyReported => "Already reported this Node.",
            InteractionError::ExceedTotalMaxLikes => "Exceed total max likes count",
            InteractionError::ExceedNodeMaxLikes => "Exceed node max likes count",
            InteractionError::ExceedTotalMaxAdmires => "Exceed total max admires count",
            InteractionError::ExceedNodeMaxAdmires => "Exceed node max admires count",
            InteractionError::ExceedTotalMaxGrants => "Exceed total max grants count",
            InteractionError::ExceedNodeMaxGrants => "Exceed node max grants count",
            InteractionError::CurrencyNotEnoughForGrant => "Currency not enough for Grant.",
            InteractionError::ExceedTotalMaxReports => "Exceed total max reports count",
            InteractionError::Currency(e) => e.message(),
        }
    }
}

/// What the interaction module holds.
#[verifier::ext_equal]
pub struct InteractionState {
    pub likes: Map<LikeId, Like>,
    pub likes_count: LikeId,
    pub admires: Map<AdmireId, Admire>,
    pub admires_count: AdmireId,
    pub grants: Map<GrantId, Grant>,
    pub grants_count: GrantId,
    pub reports: Map<ReportId, Report>,
    pub reports_count: ReportId,
    /// How many accounts like each node.
    pub node_liked_count: Map<ContentHash, u64>,
    /// How many accounts admire each node.
    pub node_admired_count: Map<ContentHash, u64>,
    /// How much each node has been granted.
    pub node_granted_balance: Map<ContentHash, Balance>,
    /// The last account that reported each node.
    pub node_reported_by: Map<ContentHash, AccountId>,
    /// The like of each account for each node.
    pub liked_node: Map<(AccountId, ContentHash), LikeId>,
    pub admired_node: Map<(AccountId, ContentHash), AdmireId>,
    pub granted_node: Map<(AccountId, ContentHash), GrantId>,
    pub reported_node: Map<(AccountId, ContentHash), ReportId>,
}

pub open spec fn u64_or_zero<K>(m: Map<K, u64>, k: K) -> u64 {
    if m.contains_key(k) { m[k] } else { 0 }
}

pub open spec fn balance_or_zero<K>(m: Map<K, Balance>, k: K) -> Balance {
    if m.contains_key(k) { m[k] } else { 0 }
}

impl InteractionState {
    /// The outcome of `do_like`.
    pub open spec fn like_outcome(
        before: InteractionState,
        after: InteractionState,
        sender: AccountId,
        to: ContentHash,
        r: Result<InteractionEvent, InteractionError>,
    ) -> bool {
        let new_id = (before.likes_count + 1) as LikeId;
        let count = u64_or_zero(before.node_liked_count, to);
        if before.likes_count == LikeId::MAX {
            r == Err::<InteractionEvent, InteractionError>(InteractionError::ExceedTotalMaxLikes)
                && after == before
        } else if count == u64::MAX {
            r == Err::<InteractionEvent, InteractionError>(InteractionError::ExceedNodeMaxLikes)
                && after == before
        } else {
            &&& r == Ok::<InteractionEvent, InteractionError>(
                InteractionEvent::Liked(to, sender, new_id, count),
            )
            &&& after == InteractionState {
                likes: before.likes.insert(new_id, Like { from: sender, to }),
                likes_count: new_id,
                node_liked_count: before.node_liked_count.insert(to, (count + 1) as u64),
                liked_node: before.liked_node.insert((sender, to), new_id),
                ..before
            }
        }
    }

    /// The outcome of `do_admire`.
    pub open spec fn admire_outcome(
        before: InteractionState,
        after: InteractionState,
        sender: AccountId,
        node_owner: AccountId,
        to: ContentHash,
        r: Result<InteractionEvent, InteractionError>,
    ) -> bool {
        let new_id = (before.admires_count + 1) as AdmireId;
        let count = u64_or_zero(before.node_admired_count, to);
        if before.admires_count == AdmireId::MAX {
            r == Err::<InteractionEvent, InteractionError>(InteractionError::ExceedTotalMaxAdmires)
                && after == before
        } else if count == u64::MAX {
            r == Err::<InteractionEvent, InteractionError>(InteractionError::ExceedNodeMaxAdmires)
                && after == before
        } else {
            &&& r == Ok::<InteractionEvent, InteractionError>(
                InteractionEvent::Admired(to, sender, node_owner, new_id, count),
            )
            &&& after == InteractionState {
                admires: before.admires.insert(new_id, Admire { from: sender, to }),
                admires_count: new_id,
                node_admired_count: before.node_admired_count.insert(to, (count + 1) as u64),
                admired_node: before.admired_node.insert((sender, to), new_id),
                ..before
            }
        }
    }

    /// The outcome of `do_grant`. The grant is recorded before the funds are
    /// checked and moved, and stays recorded where they are not.
    pub open spec fn grant_outcome<C: ReservableCurrency>(
        before: InteractionState,
        after: InteractionState,
        cur_before: C,
        cur_after: C,
        sender: AccountId,
        node_owner: AccountId,
        to: ContentHash,
        amount: Balance,
        r: Result<InteractionEvent, InteractionError>,
    ) -> bool {
        let new_id = (before.grants_count + 1) as GrantId;
        let granted = balance_or_zero(before.node_granted_balance, to);
        let new_granted = (granted + amount) as Balance;
        if before.grants_count == GrantId::MAX {
            r == Err::<InteractionEvent, InteractionError>(InteractionError::ExceedTotalMaxGrants)
                && after == before && cur_after == cur_before
        } else if granted + amount > Balance::MAX {
            r == Err::<InteractionEvent, InteractionError>(InteractionError::ExceedNodeMaxGrants)
                && after == before && cur_after == cur_before
        } else {
            &&& after == InteractionState {
                grants: before.grants.insert(new_id, Grant { from: sender, to, amount }),
                grants_count: new_id,
                node_granted_balance: before.node_granted_balance.insert(to, new_granted),
                granted_node: before.granted_node.insert((sender, to), new_id),
                ..before
            }
            &&& if cur_before.free_of(sender) < amount {
                r == Err::<InteractionEvent, InteractionError>(
                    InteractionError::CurrencyNotEnoughForGrant,
                ) && cur_after == cur_before
            } else if !cur_before.transferable(sender, node_owner, amount) {
                r matches Err(InteractionError::Currency(_)) && cur_after == cur_before
            } else {
                &&& r == Ok::<InteractionEvent, InteractionError>(
                    InteractionEvent::Granted(to, sender, node_owner, amount, new_id, new_granted),
                )
                &&& transferred(cur_before, cur_after, sender, node_owner, amount)
            }
        }
    }

    /// The outcome of `do_report`.
    pub open spec fn report_outcome(
        before: InteractionState,
        after: InteractionState,
        sender: AccountId,
        target: ContentHash,
        reason: ContentHash,
        r: Result<InteractionEvent, InteractionError>,
    ) -> bool {
        let new_id = (before.reports_count + 1) as ReportId;
        if before.reports_count == ReportId::MAX {
            r == Err::<InteractionEvent, InteractionError>(InteractionError::ExceedTotalMaxReports)
                && after == before
        } else {
            &&& r == Ok::<InteractionEvent, InteractionError>(
                InteractionEvent::Reported(target, sender, reason, new_id),
            )
            &&& after == InteractionState {
                reports: before.reports.insert(new_id, Report { from: sender, target, reason }),
                reports_count: new_id,
                node_reported_by: before.node_reported_by.insert(target, sender),
                reported_node: before.reported_node.insert((sender, target), new_id),
                ..before
            }
        }
    }

    /// The outcome of `like`.
    pub open spec fn like_call_outcome(
        before: InteractionState,
        after: InteractionState,
        owners: Map<ContentHash, AccountId>,
        sender: AccountId,
        to: ContentHash,
        r: Result<InteractionEvent, InteractionError>,
    ) -> bool {
        if !owners.contains_key(to) {
            r == Err::<InteractionEvent, InteractionError>(InteractionError::NodeDoesNotExist)
                && after == before
        } else if u64_or_zero(before.liked_node, (sender, to)) != 0 {
            r == Err::<InteractionEvent, InteractionError>(InteractionError::AlreadyLiked) && after
                == before
        } else {
            InteractionState::like_outcome(before, after, sender, to, r)
        }
    }

    /// The outcome of `admire`.
    pub open spec fn admire_call_outcome(
        before: InteractionState,
        after: InteractionState,
        owners: Map<ContentHash, AccountId>,
        sender: AccountId,
        to: ContentHash,
        r: Result<InteractionEvent, InteractionError>,
    ) -> bool {
        if !owners.contains_key(to) {
            r == Err::<InteractionEvent, InteractionError>(InteractionError::NodeDoesNotExist)
                && after == before
        } else if owners[to] == sender {
            r == Err::<InteractionEvent, InteractionError>(InteractionError::CannotAdmireYourself)
                && after == before
        } else if u64_or_zero(before.admired_node, (sender, to)) != 0 {
            r == Err::<InteractionEvent, InteractionError>(InteractionError::AlreadyAdmired)
                && after == before
        } else {
            InteractionState::admire_outcome(before, after, sender, owners[to], to, r)
        }
    }

    /// The outcome of `grant`.
    pub open spec fn grant_call_outcome<C: ReservableCurrency>(
        before: InteractionState,
        after: InteractionState,
        cur_before: C,
        cur_after: C,
        owners: Map<ContentHash, AccountId>,
        sender: AccountId,
        to: ContentHash,
        amount: Balance,
        r: Result<InteractionEvent, InteractionError>,
    ) -> bool {
        if !owners.contains_key(to) {
            r == Err::<InteractionEvent, InteractionError>(InteractionError::NodeDoesNotExist)
                && after == before && cur_after == cur_before
        } else if owners[to] == sender {
            r == Err::<InteractionEvent, InteractionError>(InteractionError::CannotGrantYourself)
                && after == before && cur_after == cur_before
        } else if u64_or_zero(before.granted_node, (sender, to)) != 0 {
            r == Err::<InteractionEvent, InteractionError>(InteractionError::AlreadyGranted)
                && after == before && cur_after == cur_before
        } else if amount == 0 {
            r == Err::<InteractionEvent, InteractionError>(InteractionError::GrantNotPositive)
                && after == before && cur_after == cur_before
        } else {
            InteractionState::grant_outcome(
                before,
                after,
                cur_before,
                cur_after,
                sender,
                owners[to],
                to,
                amount,
                r,
            )
        }
    }

    /// The outcome of `report`.
    pub open spec fn report_call_outcome(
        before: InteractionState,
        after: InteractionState,
        owners: Map<ContentHash, AccountId>,
        sender: AccountId,
        target: ContentHash,
        reason: ContentHash,
        r: Result<InteractionEvent, InteractionError>,
    ) -> bool {
        if !owners.contains_key(target) {
            r == Err::<InteractionEvent, InteractionError>(InteractionError::NodeDoesNotExist)
                && after == before
        } else if owners[target] == sender {
            r == Err::<InteractionEvent, InteractionError>(InteractionError::CannotReportYourself)
                && after == before
        } else if u64_or_zero(before.reported_node, (sender, target)) != 0 {
            r == Err::<InteractionEvent, InteractionError>(InteractionError::AlreadyReported)
                && after == before
        } else {
            InteractionState::report_outcome(before, after, sender, target, reason, r)
        }
    }
}

/// The storage of the interaction module.
pub struct Module {
    likes: StorageMap<LikeId, Like>,
    likes_count: LikeId,
    admires: StorageMap<AdmireId, Admire>,
    admires_count: AdmireId,
    grants: StorageMap<GrantId, Grant>,
    grants_count: GrantId,
    reports: StorageMap<ReportId, Report>,
    reports_count: ReportId,
    node_liked_count: StorageMap<ContentHash, u64>,
    node_admired_count: StorageMap<ContentHash, u64>,
    node_granted_balance: StorageMap<ContentHash, Balance>,
    node_reported_by: StorageMap<ContentHash, AccountId>,
    liked_node: StorageMap<(AccountId, ContentHash), LikeId>,
    admired_node: StorageMap<(AccountId, ContentHash), AdmireId>,
    granted_node: StorageMap<(AccountId, ContentHash), GrantId>,
    reported_node: StorageMap<(AccountId, ContentHash), ReportId>,
}

impl View for Module {
    type V = InteractionState;

    closed spec fn view(&self) -> InteractionState {
        InteractionState {
            likes: self.likes@,
            likes_count: self.likes_count,
            admires: self.admires@,
            admires_count: self.admires_count,
            grants: self.grants@,
            grants_count: self.grants_count,
            reports: self.reports@,
            reports_count: self.reports_count,
            node_liked_count: self.node_liked_count@,
            node_admired_count: self.node_admired_count@,
            node_granted_balance: self.node_granted_balance@,
            node_reported_by: self.node_reported_by@,
            liked_node: self.liked_node@,
            admired_node: self.admired_node@,
            granted_node: self.granted_node@,
            reported_node: self.reported_node@,
        }
    }
}

impl Module {
    /// A module with no interaction.
    pub fn new() -> (m: Self)
        ensures
            m@ == (InteractionState {
                likes: Map::empty(),
                likes_count: 0,
                admires: Map::empty(),
                admires_count: 0,
                grants: Map::empty(),
                grants_count: 0,
                reports: Map::empty(),
                reports_count: 0,
                node_liked_count: Map::empty(),
                node_admired_count: Map::empty(),
                node_granted_balance: Map::empty(),
                node_reported_by: Map::empty(),
                liked_node: Map::empty(),
                admired_node: Map::empty(),
                granted_node: Map::empty(),
                reported_node: Map::empty(),
            }),
    {
        Module {
            likes: StorageMap::new(),
            likes_count: 0,
            admires: StorageMap::new(),
            admires_count: 0,
            grants: StorageMap::new(),
            grants_count: 0,
            reports: StorageMap::new(),
            reports_count: 0,
            node_liked_count: StorageMap::new(),
            node_admired_count: StorageMap::new(),
            node_granted_balance: StorageMap::new(),
            node_reported_by: StorageMap::new(),
            liked_node: StorageMap::new(),
            admired_node: StorageMap::new(),
            granted_node: StorageMap::new(),
            reported_node: StorageMap::new(),
        }
    }

    pub fn get_like(&self, id: LikeId) -> (r: Option<Like>)
        ensures
            r == (if self@.likes.contains_key(id) { Some(self@.likes[id]) } else { None::<Like> }),
    {
        self.likes.get(id)
    }

    pub fn all_likes_count(&self) -> (r: LikeId)
        ensures
            r == self@.likes_count,
    {
        self.likes_count
    }

    pub fn get_admire(&self, id: AdmireId) -> (r: Option<Admire>)
        ensures
            r == (if self@.admires.contains_key(id) {
                Some(self@.admires[id])
            } else {
                None::<Admire>
            }),
    {
        self.admires.get(id)
    }

    pub fn all_admires_count(&self) -> (r: AdmireId)
        ensures
            r == self@.admires_count,
    {
        self.admires_count
    }

    pub fn get_grant(&self, id: GrantId) -> (r: Option<Grant>)
        ensures
            r == (if self@.grants.contains_key(id) {
                Some(self@.grants[id])
            } else {
                None::<Grant>
            }),
    {
        self.grants.get(id)
    }

    pub fn all_grants_count(&self) -> (r: GrantId)
        ensures
            r == self@.grants_count,
    {
        self.grants_count
    }

    pub fn get_report(&self, id: ReportId) -> (r: Option<Report>)
        ensures
            r == (if self@.reports.contains_key(id) {
                Some(self@.reports[id])
            } else {
                None::<Report>
            }),
    {
        self.reports.get(id)
    }

    pub fn all_reports_count(&self) -> (r: ReportId)
        ensures
            r == self@.reports_count,
    {
        self.reports_count
    }

    pub fn node_liked_count(&self, node: ContentHash) -> (r: u64)
        ensures
            r == u64_or_zero(self@.node_liked_count, node),
    {
        self.node_liked_count.get_or_default(node, 0)
    }

    pub fn node_admired_count(&self, node: ContentHash) -> (r: u64)
        ensures
            r == u64_or_zero(self@.node_admired_count, node),
    {
        self.node_admired_count.get_or_default(node, 0)
    }

    pub fn node_granted_balance(&self, node: ContentHash) -> (r: Balance)
        ensures
            r == balance_or_zero(self@.node_granted_balance, node),
    {
        self.node_granted_balance.get_or_default(node, 0)
    }

    pub fn node_reported_by(&self, node: ContentHash) -> (r: AccountId)
        ensures
            r == u64_or_zero(self@.node_reported_by, node),
    {
        self.node_reported_by.get_or_default(node, 0)
    }

    pub fn liked_node(&self, who: AccountId, node: ContentHash) -> (r: LikeId)
        ensures
            r == u64_or_zero(self@.liked_node, (who, node)),
    {
        self.liked_node.get_or_default((who, node), 0)
    }

    pub fn admired_node(&self, who: AccountId, node: ContentHash) -> (r: AdmireId)
        ensures
            r == u64_or_zero(self@.admired_node, (who, node)),
    {
        self.admired_node.get_or_default((who, node), 0)
    }

    pub fn granted_node(&self, who: AccountId, node: ContentHash) -> (r: GrantId)
        ensures
            r == u64_or_zero(self@.granted_node, (who, node)),
    {
        self.granted_node.get_or_default((who, node), 0)
    }

    pub fn reported_node(&self, who: AccountId, node: ContentHash) -> (r: ReportId)
        ensures
            r == u64_or_zero(self@.reported_node, (who, node)),
    {
        self.reported_node.get_or_default((who, node), 0)
    }

    /// Records that `sender` likes node `to`.
    pub fn do_like(&mut self, sender: AccountId, to: ContentHash) -> (r: Result<
        InteractionEvent,
        InteractionError,
    >)
        ensures
            InteractionState::like_outcome(old(self)@, final(self)@, sender, to, r),
    {
        let new_like = Like { from: sender, to };
        let all_likes_count = self.likes_count;
        let new_like_id = match all_likes_count.checked_add(1) {
            Some(id) => id,
            None => return Err(InteractionError::ExceedTotalMaxLikes),
        };
        let node_liked_count = self.node_liked_count(to);
        let new_node_liked_count = match node_liked_count.checked_add(1) {
            Some(c) => c,
            None => return Err(InteractionError::ExceedNodeMaxLikes),
        };
        self.likes.insert(new_like_id, new_like);
        self.likes_count = new_like_id;
        self.node_liked_count.insert(to, new_node_liked_count);
        self.liked_node.insert((sender, to), new_like_id);
        Ok(InteractionEvent::Liked(to, sender, new_like_id, node_liked_count))
    }

    /// Records that `sender` admires node `to`, owned by `node_owner`.
    pub fn do_admire(&mut self, sender: AccountId, node_owner: AccountId, to: ContentHash) -> (r:
        Result<InteractionEvent, InteractionError>)
        ensures
            InteractionState::admire_outcome(old(self)@, final(self)@, sender, node_owner, to, r),
    {
        let new_admire = Admire { from: sender, to };
        let all_admires_count = self.admires_count;
        let new_admire_id = match all_admires_count.checked_add(1) {
            Some(id) => id,
            None => return Err(InteractionError::ExceedTotalMaxAdmires),
        };
        let node_admired_count = self.node_admired_count(to);
        let new_node_admired_count = match node_admired_count.checked_add(1) {
            Some(c) => c,
            None => return Err(InteractionError::ExceedNodeMaxAdmires),
        };
        self.admires.insert(new_admire_id, new_admire);
        self.admires_count = new_admire_id;
        self.node_admired_count.insert(to, new_node_admired_count);
        self.admired_node.insert((sender, to), new_admire_id);
        Ok(InteractionEvent::Admired(to, sender, node_owner, new_admire_id, node_admired_count))
    }

    /// Records a grant of `amount` from `sender` to node `to`, then moves
    /// the funds to the node's owner `node_owner`.
    pub fn do_grant<C: ReservableCurrency>(
        &mut self,
        currency: &mut C,
        sender: AccountId,
        node_owner: AccountId,
        to: ContentHash,
        amount: Balance,
    ) -> (r: Result<InteractionEvent, InteractionError>)
        requires
            old(currency).inv(),
        ensures
            final(currency).inv(),
            InteractionState::grant_outcome(
                old(self)@,
                final(self)@,
                *old(currency),
                *final(currency),
                sender,
                node_owner,
                to,
                amount,
                r,
            ),
    {
        let new_grant = Grant { from: sender, to, amount };
        let all_grants_count = self.grants_count;
        let new_grant_id = match all_grants_count.checked_add(1) {
            Some(id) => id,
            None => return Err(InteractionError::ExceedTotalMaxGrants),
        };
        let node_granted_balance = self.node_granted_balance(to);
        let new_node_granted_balance = match node_granted_balance.checked_add(amount) {
            Some(b) => b,
            None => return Err(InteractionError::ExceedNodeMaxGrants),
        };
        self.grants.insert(new_grant_id, new_grant);
        self.grants_count = new_grant_id;
        self.node_granted_balance.insert(to, new_node_granted_balance);
        self.granted_node.insert((sender, to), new_grant_id);
        let free_balance = currency.free_balance(sender);
        if free_balance < amount {
            return Err(InteractionError::CurrencyNotEnoughForGrant);
        }
        match currency.transfer(sender, node_owner, amount) {
            Ok(()) => {},
            Err(e) => return Err(InteractionError::Currency(e)),
        }
        Ok(
            InteractionEvent::Granted(
                to,
                sender,
                node_owner,
                amount,
                new_grant_id,
                new_node_granted_balance,
            ),
        )
    }

    /// Records a report of node `target` by `sender` for `reason`.
    pub fn do_report(&mut self, sender: AccountId, target: ContentHash, reason: ContentHash) -> (r:
        Result<InteractionEvent, InteractionError>)
        ensures
            InteractionState::report_outcome(old(self)@, final(self)@, sender, target, reason, r),
    {
        let new_report = Report { from: sender, target, reason };
        let all_reports_count = self.reports_count;
        let new_report_id = match all_reports_count.checked_add(1) {
            Some(id) => id,
            None => return Err(InteractionError::ExceedTotalMaxReports),
        };
        self.reports.insert(new_report_id, new_report);
        self.reports_count = new_report_id;
        self.node_reported_by.insert(target, sender);
        self.reported_node.insert((sender, target), new_report_id);
        Ok(InteractionEvent::Reported(target, sender, reason, new_report_id))
    }

    /// `sender` likes node `to`, which must exist and not be liked by `sender` yet.
    pub fn like(&mut self, nodes: &node::Module, sender: AccountId, to: ContentHash) -> (r: Result<
        InteractionEvent,
        InteractionError,
    >)
        ensures
            InteractionState::like_call_outcome(old(self)@, final(self)@, nodes@.node_owner, sender, to, r),
    {
        match nodes.owner_of(to) {
            Some(_) => {},
            None => return Err(InteractionError::NodeDoesNotExist),
        }
        let like_id = self.liked_node(sender, to);
        if like_id != 0 {
            return Err(InteractionError::AlreadyLiked);
        }
        self.do_like(sender, to)
    }

    /// `sender` admires node `to`, which must exist, be owned by another
    /// account and not be admired by `sender` yet.
    pub fn admire(&mut self, nodes: &node::Module, sender: AccountId, to: ContentHash) -> (r:
        Result<InteractionEvent, InteractionError>)
        ensures
            InteractionState::admire_call_outcome(
                old(self)@,
                final(self)@,
                nodes@.node_owner,
                sender,
                to,
                r,
            ),
    {
        let node_owner = match nodes.owner_of(to) {
            Some(owner) => owner,
            None => return Err(InteractionError::NodeDoesNotExist),
        };
        if sender == node_owner {
            return Err(InteractionError::CannotAdmireYourself);
        }
        let admire_id = self.admired_node(sender, to);
        if admire_id != 0 {
            return Err(InteractionError::AlreadyAdmired);
        }
        self.do_admire(sender, node_owner, to)
    }

    /// `sender` grants `amount` to node `to`, which must exist, be owned by
    /// another account and not be granted by `sender` yet; the amount must
    /// be positive.
    pub fn grant<C: ReservableCurrency>(
        &mut self,
        nodes: &node::Module,
        currency: &mut C,
        sender: AccountId,
        to: ContentHash,
        amount: Balance,
    ) -> (r: Result<InteractionEvent, InteractionError>)
        requires
            old(currency).inv(),
        ensures
            final(currency).inv(),
            InteractionState::grant_call_outcome(
                old(self)@,
                final(self)@,
                *old(currency),
                *final(currency),
                nodes@.node_owner,
                sender,
                to,
                amount,
                r,
            ),
    {
        let node_owner = match nodes.owner_of(to) {
            Some(owner) => owner,
            None => return Err(InteractionError::NodeDoesNotExist),
        };
        if sender == node_owner {
            return Err(InteractionError::CannotGrantYourself);
        }
        let grant_id = self.granted_node(sender, to);
        if grant_id != 0 {
            return Err(InteractionError::AlreadyGranted);
        }
        if amount == 0 {
            return Err(InteractionError::GrantNotPositive);
        }
        self.do_grant(currency, sender, node_owner, to, amount)
    }

    /// `sender` reports node `target` for `reason`; the node must exist, be
    /// owned by another account and not be reported by `sender` yet.
    pub fn report(
        &mut self,
        nodes: &node::Module,
        sender: AccountId,
        target: ContentHash,
        reason: ContentHash,
    ) -> (r: Result<InteractionEvent, InteractionError>)
        ensures
            InteractionState::report_call_outcome(
                old(self)@,
                final(self)@,
                nodes@.node_owner,
                sender,
                target,
                reason,
                r,
            ),
    {
        let node_owner = match nodes.owner_of(target) {
            Some(owner) => owner,
            None => return Err(InteractionError::NodeDoesNotExist),
        };
        if sender == node_owner {
            return Err(InteractionError::CannotReportYourself);
        }
        let report_id = self.reported_node(sender, target);
        if report_id != 0 {
            return Err(InteractionError::AlreadyReported);
        }
        self.do_report(sender, target, reason)
    }
}

/// An account likes a node at most once: after a successful like, the same
/// account's next like of the node is refused as already liked.
pub proof fn law_like_once(
    s0: InteractionState,
    s1: InteractionState,
    s2: InteractionState,
    owners: Map<ContentHash, AccountId>,
    sender: AccountId,
    to: ContentHash,
    r1: Result<InteractionEvent, InteractionError>,
    r2: Result<InteractionEvent, InteractionError>,
)
    requires
        InteractionState::like_call_outcome(s0, s1, owners, sender, to, r1),
        r1 is Ok,
        InteractionState::like_call_outcome(s1, s2, owners, sender, to, r2),
    ensures
        r2 == Err::<InteractionEvent, InteractionError>(InteractionError::AlreadyLiked),
        s2 == s1,
        u64_or_zero(s1.node_liked_count, to) == u64_or_zero(s0.node_liked_count, to) + 1,
{
}

/// An account admires a node at most once.
pub proof fn law_admire_once(
    s0: InteractionState,
    s1: InteractionState,
    s2: InteractionState,
    owners: Map<ContentHash, AccountId>,
    sender: AccountId,
    to: ContentHash,
    r1: Result<InteractionEvent, InteractionError>,
    r2: Result<InteractionEvent, InteractionError>,
)
    requires
        InteractionState::admire_call_outcome(s0, s1, owners, sender, to, r1),
        r1 is Ok,
        InteractionState::admire_call_outcome(s1, s2, owners, sender, to, r2),
    ensures
        r2 == Err::<InteractionEvent, InteractionError>(InteractionError::AlreadyAdmired),
        s2 == s1,
        u64_or_zero(s1.node_admired_count, to) == u64_or_zero(s0.node_admired_count, to) + 1,
{
}

/// An account grants to a node at most once: once a grant has been
/// recorded, whether or not its funds moved, the same account's next grant
/// to the node is refused as already granted.
pub proof fn law_grant_once<C: ReservableCurrency>(
    s0: InteractionState,
    s1: InteractionState,
    s2: InteractionState,
    c0: C,
    c1: C,
    c2: C,
    owners: Map<ContentHash, AccountId>,
    sender: AccountId,
    to: ContentHash,
    amount1: Balance,
    amount2: Balance,
    r1: Result<InteractionEvent, InteractionError>,
    r2: Result<InteractionEvent, InteractionError>,
)
    requires
        InteractionState::grant_call_outcome(s0, s1, c0, c1, owners, sender, to, amount1, r1),
        s1.grants_count != s0.grants_count,
        InteractionState::grant_call_outcome(s1, s2, c1, c2, owners, sender, to, amount2, r2),
    ensures
        r2 == Err::<InteractionEvent, InteractionError>(InteractionError::AlreadyGranted),
        s2 == s1,
        c2 == c1,
{
}

/// A successful grant adds its amount to what the node has been granted and
/// moves that amount from the sender's free funds to the node owner's.
pub proof fn law_grant_moves_funds<C: ReservableCurrency>(
    s0: InteractionState,
    s1: InteractionState,
    c0: C,
    c1: C,
    owners: Map<ContentHash, AccountId>,
    sender: AccountId,
    to: ContentHash,
    amount: Balance,
    r: Result<InteractionEvent, InteractionError>,
)
    requires
        InteractionState::grant_call_outcome(s0, s1, c0, c1, owners, sender, to, amount, r),
        r is Ok,
    ensures
        balance_or_zero(s1.node_granted_balance, to) == balance_or_zero(s0.node_granted_balance, to)
            + amount,
        c1.free_of(sender) == c0.free_of(sender) - amount,
        c1.free_of(owners[to]) == c0.free_of(owners[to]) + amount,
{
}

/// A successful grant reports the node, the sender, the node's owner, the
/// amount, the new grant's identifier (one above the previous count of
/// grants) and what the node has been granted in all after this grant: its
/// previous total plus the amount. The grant is recorded under that
/// identifier, from the sender to the node for the amount.
pub proof fn law_grant_reports_new_total<C: ReservableCurrency>(
    s0: InteractionState,
    s1: InteractionState,
    c0: C,
    c1: C,
    owners: Map<ContentHash, AccountId>,
    sender: AccountId,
    to: ContentHash,
    amount: Balance,
    r: Result<InteractionEvent, InteractionError>,
)
    requires
        InteractionState::grant_call_outcome(s0, s1, c0, c1, owners, sender, to, amount, r),
        r is Ok,
    ensures
        r matches Ok(InteractionEvent::Granted(node, from, owner, granted, grant_id, total)) && {
            &&& node == to
            &&& from == sender
            &&& owner == owners[to]
            &&& granted == amount
            &&& grant_id == s0.grants_count + 1
            &&& grant_id == s1.grants_count
            &&& total == balance_or_zero(s0.node_granted_balance, to) + amount
            &&& total == balance_or_zero(s1.node_granted_balance, to)
            &&& s1.grants.contains_key(grant_id)
            &&& s1.grants[grant_id] == (Grant { from: sender, to, amount })
            &&& s1.granted_node[(sender, to)] == grant_id
        },
{
}

/// An account reports a node at most once.
pub proof fn law_report_once(
    s0: InteractionState,
    s1: InteractionState,
    s2: InteractionState,
    owners: Map<ContentHash, AccountId>,
    sender: AccountId,
    target: ContentHash,
    reason1: ContentHash,
    reason2: ContentHash,
    r1: Result<InteractionEvent, InteractionError>,
    r2: Result<InteractionEvent, InteractionError>,
)
    requires
        InteractionState::report_call_outcome(s0, s1, owners, sender, target, reason1, r1),
        r1 is Ok,
        InteractionState::report_call_outcome(s1, s2, owners, sender, target, reason2, r2),
    ensures
        r2 == Err::<InteractionEvent, InteractionError>(InteractionError::AlreadyReported),
        s2 == s1,
        s1.node_reported_by[target] == sender,
{
}

} // verus!
