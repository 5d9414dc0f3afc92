use vstd::prelude::*;
use crate::address::Address;
use crate::config::StablecoinConfig;
use crate::clock::unix_timestamp;
use crate::error::{OperationError, StablecoinError};

verus! {

/// The compliance record of one holder: whether the holder is blocked, and when
/// that was last set. A record is never erased: lifting the block clears the
/// flag and leaves the record in place with a new time.
#[derive(Clone, Copy, Debug, PartialEq, Eq)]
pub struct BlacklistEntry {
    pub address: Address,
    pub is_blacklisted: bool,
    pub timestamp: i64,
}

impl BlacklistEntry {
    /// This record blocks `address`: it is the record of that address and its
    /// flag is set.
    pub open spec fn blocks(self, address: Address) -> bool {
        self.address@ == address@ && self.is_blacklisted
    }
}

/// What a change of the blacklist is handed: the record of the holder in
/// question, the record of the instance, and the caller.
#[derive(Clone, Debug, PartialEq, Eq)]
pub struct ModifyBlacklist {
    pub blacklist_entry: BlacklistEntry,
    pub stablecoin_config: StablecoinConfig,
    pub authority: Address,
}

/// What a query of the blacklist is handed: the record of the holder in
/// question.
#[derive(Clone, Copy, Debug, PartialEq, Eq)]
pub struct CheckBlacklist {
    pub blacklist_entry: BlacklistEntry,
}

/// The context after the caller, if it holds the mint authority, has set the
/// flag of `address` to `flag` at the time `now`.
pub open spec fn blacklist_written(ctx: ModifyBlacklist, address: Address, flag: bool, now: i64)
    -> ModifyBlacklist {
    ModifyBlacklist {
        blacklist_entry: BlacklistEntry { address, is_blacklisted: flag, timestamp: now },
        ..ctx
    }
}

/// Blocks `address` as of `now`. Only the mint authority may do so; anyone else
/// is refused and the record stays as it was.
pub fn add_to_blacklist_at(ctx: &mut ModifyBlacklist, address: Address, now: i64) -> (r: Result<
    (),
    StablecoinError,
>)
    ensures
        old(ctx).stablecoin_config.spec_may_mint(old(ctx).authority) ==> r is Ok && *final(ctx)
            == blacklist_written(*old(ctx), address, true, now),
        !old(ctx).stablecoin_config.spec_may_mint(old(ctx).authority) ==> r == Err::<
            (),
            StablecoinError,
        >(StablecoinError::UnauthorizedAccess) && *final(ctx) == *old(ctx),
{
    if !ctx.stablecoin_config.may_mint(&ctx.authority) {
        return Err(StablecoinError::UnauthorizedAccess);
    }
    ctx.blacklist_entry.address = address;
    ctx.blacklist_entry.is_blacklisted = true;
    ctx.blacklist_entry.timestamp = now;
    Ok(())
}

/// Lifts the block on `address` as of `now`. Only the mint authority may do so;
/// anyone else is refused and the record stays as it was. The record is kept.
pub fn remove_from_blacklist_at(ctx: &mut ModifyBlacklist, address: Address, now: i64) -> (r: Result<
    (),
    StablecoinError,
>)
    ensures
        old(ctx).stablecoin_config.spec_may_mint(old(ctx).authority) ==> r is Ok && *final(ctx)
            == blacklist_written(*old(ctx), address, false, now),
        !old(ctx).stablecoin_config.spec_may_mint(old(ctx).authority) ==> r == Err::<
            (),
            StablecoinError,
        >(StablecoinError::UnauthorizedAccess) && *final(ctx) == *old(ctx),
{
    if !ctx.stablecoin_config.may_mint(&ctx.authority) {
        return Err(StablecoinError::UnauthorizedAccess);
    }
    ctx.blacklist_entry.address = address;
    ctx.blacklist_entry.is_blacklisted = false;
    ctx.blacklist_entry.timestamp = now;
    Ok(())
}

/// What a change of the blacklist that reads the host's clock may come to.
/// A caller without the mint authority is refused before the clock is read and
/// nothing changes. Otherwise the record is written with the flag and some time,
/// the one the host gave, or the host had no time to give and nothing changes.
pub open spec fn written_now(
    before: ModifyBlacklist,
    after: ModifyBlacklist,
    address: Address,
    flag: bool,
    r: Result<(), OperationError>,
) -> bool {
    if !before.stablecoin_config.spec_may_mint(before.authority) {
        r == Err::<(), OperationError>(
            OperationError::Refused(StablecoinError::UnauthorizedAccess),
        ) && after == before
    } else {
        match r {
            Ok(_) => exists|now: i64|
                after == #[trigger] blacklist_written(before, address, flag, now),
            Err(OperationError::Host(_)) => after == before,
            Err(OperationError::Refused(_)) => false,
        }
    }
}

/// Blocks `address` as of the host's present time. Only the mint authority may
/// do so; anyone else is refused, before the clock is asked. Where the host
/// gives no time, its error is handed on and the record stays as it was.
pub fn add_to_blacklist(ctx: &mut ModifyBlacklist, address: Address) -> (r: Result<
    (),
    OperationError,
>)
    ensures
        written_now(*old(ctx), *final(ctx), address, true, r),
{
    if !ctx.stablecoin_config.may_mint(&ctx.authority) {
        return Err(OperationError::Refused(StablecoinError::UnauthorizedAccess));
    }
    match unix_timestamp() {
        Ok(now) => {
            let written = add_to_blacklist_at(ctx, address, now);
            match written {
                Ok(()) => Ok(()),
                Err(e) => Err(OperationError::Refused(e)),
            }
        },
        Err(e) => Err(OperationError::Host(e)),
    }
}

/// Lifts the block on `address` as of the host's present time. Only the mint
/// authority may do so; anyone else is refused, before the clock is asked.
/// Where the host gives no time, its error is handed on and the record stays
/// as it was. The record is kept.
pub fn remove_from_blacklist(ctx: &mut ModifyBlacklist, address: Address) -> (r: Result<
    (),
    OperationError,
>)
    ensures
        written_now(*old(ctx), *final(ctx), address, false, r),
{
    if !ctx.stablecoin_config.may_mint(&ctx.authority) {
        return Err(OperationError::Refused(StablecoinError::UnauthorizedAccess));
    }
    match unix_timestamp() {
        Ok(now) => {
            let written = remove_from_blacklist_at(ctx, address, now);
            match written {
                Ok(()) => Ok(()),
                Err(e) => Err(OperationError::Refused(e)),
            }
        },
        Err(e) => Err(OperationError::Host(e)),
    }
}

/// What `check_blacklist` answers.
pub open spec fn check_outcome(ctx: CheckBlacklist, address: Address) -> Result<
    (),
    StablecoinError,
> {
    if ctx.blacklist_entry.blocks(address) {
        Err(StablecoinError::AddressBlacklisted)
    } else {
        Ok(())
    }
}

/// The compliance decision as a step that other steps follow: succeeds when
/// `address` is not blocked and fails with `AddressBlacklisted` when it is. A
/// blocked address is never reported by a value, only by the failure.
pub fn check_blacklist(ctx: &CheckBlacklist, address: Address) -> (r: Result<(), StablecoinError>)
    ensures
        r == check_outcome(*ctx, address),
{
    if ctx.blacklist_entry.is_blacklisted && ctx.blacklist_entry.address == address {
        return Err(StablecoinError::AddressBlacklisted);
    }
    Ok(())
}

/// The blacklist of one token instance: at most one record for each address.
#[derive(Debug)]
pub struct Blacklist {
    entries: Vec<BlacklistEntry>,
}

impl View for Blacklist {
    type V = Map<Seq<u8>, (bool, i64)>;

    /// For each address that has a record, its flag and the time of its last
    /// change.
    closed spec fn view(&self) -> Map<Seq<u8>, (bool, i64)> {
        Map::new(
            |a: Seq<u8>| self.has_entry(a),
            |a: Seq<u8>| (self.entry(a).is_blacklisted, self.entry(a).timestamp),
        )
    }
}

impl Blacklist {
    /// No address has two records.
    #[verifier::type_invariant]
    spec fn wf(&self) -> bool {
        forall|i: int, j: int|
            0 <= i < j < self.entries@.len() ==> self.entries@[i].address@
                != self.entries@[j].address@
    }

    spec fn holds(&self, i: int, a: Seq<u8>) -> bool {
        0 <= i < self.entries@.len() && self.entries@[i].address@ == a
    }

    spec fn has_entry(&self, a: Seq<u8>) -> bool {
        exists|i: int| self.holds(i, a)
    }

    spec fn entry(&self, a: Seq<u8>) -> BlacklistEntry {
        self.entries@[choose|i: int| self.holds(i, a)]
    }

    /// `address` has a record and its flag is set.
    pub open spec fn flagged(&self, address: Address) -> bool {
        self@.contains_key(address@) && self@[address@].0
    }

    /// The record of `address`: the stored one, or, where none was stored yet,
    /// a fresh one that blocks nothing.
    pub open spec fn spec_slot(&self, address: Address) -> BlacklistEntry {
        if self@.contains_key(address@) {
            BlacklistEntry {
                address,
                is_blacklisted: self@[address@].0,
                timestamp: self@[address@].1,
            }
        } else {
            BlacklistEntry { address, is_blacklisted: false, timestamp: 0 }
        }
    }

    /// The compliance decision: value may move between `participants` when
    /// none of them is flagged.
    pub open spec fn spec_permits(&self, participants: Seq<Address>) -> bool {
        forall|i: int| 0 <= i < participants.len() ==> !self.flagged(#[trigger] participants[i])
    }

    proof fn lemma_entry_at(&self, i: int)
        requires
            self.wf(),
            0 <= i < self.entries@.len(),
        ensures
            self.has_entry(self.entries@[i].address@),
            self.entry(self.entries@[i].address@) == self.entries@[i],
    {
        let a = self.entries@[i].address@;
        assert(self.holds(i, a));
        let j = choose|j: int| self.holds(j, a);
        assert(self.holds(j, a));
        if j < i {
            assert(self.entries@[j].address@ != self.entries@[i].address@);
        }
        if i < j {
            assert(self.entries@[i].address@ != self.entries@[j].address@);
        }
    }

    /// A blacklist without records.
    pub fn new() -> (b: Blacklist)
        ensures
            b@ == Map::<Seq<u8>, (bool, i64)>::empty(),
    {
        let b = Blacklist { entries: Vec::new() };
        proof {
            assert forall|a: Seq<u8>| !b.has_entry(a) by {
                if b.has_entry(a) {
                    let i = choose|i: int| b.holds(i, a);
                    assert(b.holds(i, a));
                }
            }
            assert(b@ =~= Map::<Seq<u8>, (bool, i64)>::empty());
        }
        b
    }

    fn find(&self, address: &Address) -> (r: Option<usize>)
        ensures
            match r {
                Some(i) => self.holds(i as int, address@),
                None => !self.has_entry(address@),
            },
    {
        let mut i: usize = 0;
        while i < self.entries.len()
            invariant
                i <= self.entries@.len(),
                forall|j: int| 0 <= j < i ==> self.entries@[j].address@ != address@,
            decreases self.entries@.len() - i,
        {
            if self.entries[i].address == *address {
                return Some(i);
            }
            i += 1;
        }
        proof {
            if self.has_entry(address@) {
                let k = choose|k: int| self.holds(k, address@);
                assert(self.holds(k, address@));
            }
        }
        None
    }

    /// The number of addresses that have a record.
    pub fn len(&self) -> (n: usize)
        ensures
            n == self@.dom().len(),
            self@.dom().finite(),
    {
        proof {
            use_type_invariant(self);
            self.lemma_dom_len();
        }
        self.entries.len()
    }

    proof fn lemma_dom_len(&self)
        requires
            self.wf(),
        ensures
            self@.dom().finite(),
            self@.dom().len() == self.entries@.len(),
    {
        let addrs = self.entries@.map_values(|e: BlacklistEntry| e.address@);
        assert(addrs.no_duplicates()) by {
            assert forall|i: int, j: int|
                0 <= i < addrs.len() && 0 <= j < addrs.len() && i != j implies addrs[i]
                != addrs[j] by {
                if i < j {
                    assert(self.entries@[i].address@ != self.entries@[j].address@);
                } else {
                    assert(self.entries@[j].address@ != self.entries@[i].address@);
                }
            }
        }
        assert(addrs.to_set() =~= self@.dom()) by {
            assert forall|a: Seq<u8>| addrs.to_set().contains(a) <==> self@.dom().contains(
                a,
            ) by {
                if addrs.to_set().contains(a) {
                    let i = choose|i: int| 0 <= i < addrs.len() && addrs[i] == a;
                    assert(self.holds(i, a));
                }
                if self.has_entry(a) {
                    let i = choose|i: int| self.holds(i, a);
                    assert(self.holds(i, a));
                    assert(addrs[i] == a);
                }
            }
        }
        addrs.unique_seq_to_set();
    }

    /// The record of `address` as a change or a query is handed it: the stored
    /// record, or a fresh one where the address was never written.
    pub fn slot(&self, address: &Address) -> (e: BlacklistEntry)
        ensures
            e == self.spec_slot(*address),
    {
        match self.find(address) {
            Some(i) => {
                proof {
                    use_type_invariant(self);
                    self.lemma_entry_at(i as int);
                }
                BlacklistEntry {
                    address: *address,
                    is_blacklisted: self.entries[i].is_blacklisted,
                    timestamp: self.entries[i].timestamp,
                }
            },
            None => BlacklistEntry { address: *address, is_blacklisted: false, timestamp: 0 },
        }
    }

    /// Whether `address` is blocked right now. The stored flag is read at every
    /// call; nothing is remembered between calls.
    pub fn is_flagged(&self, address: &Address) -> (r: bool)
        ensures
            r == self.flagged(*address),
    {
        match self.find(address) {
            Some(i) => {
                proof {
                    use_type_invariant(self);
                    self.lemma_entry_at(i as int);
                }
                self.entries[i].is_blacklisted
            },
            None => false,
        }
    }

    /// Puts `entry` in the place of the record of its address, or adds it where
    /// the address had none. All other records stay as they were.
    pub fn store(&mut self, entry: BlacklistEntry)
        ensures
            final(self)@ == old(self)@.insert(
                entry.address@,
                (entry.is_blacklisted, entry.timestamp),
            ),
    {
        let ghost before = *self;
        proof {
            use_type_invariant(&*self);
        }
        let found = self.find(&entry.address);
        let mut entries = self.copy_entries();
        match found {
            Some(k) => {
                entries[k] = entry;
            },
            None => {
                entries.push(entry);
            },
        }
        proof {
            let after = Blacklist { entries };
            assert(after.wf()) by {
                assert forall|i: int, j: int|
                    0 <= i < j < after.entries@.len() implies after.entries@[i].address@
                    != after.entries@[j].address@ by {
                    if j < before.entries@.len() {
                        assert(before.entries@[i].address@ != before.entries@[j].address@);
                    } else {
                        assert(!before.holds(i, entry.address@));
                    }
                }
            }
            if found is Some {
                assert(before.holds(found->0 as int, entry.address@));
                assert(after.entries@ == before.entries@.update(found->0 as int, entry));
            } else {
                assert(after.entries@ == before.entries@.push(entry));
            }
            Self::lemma_stored(before, after, entry);
        }
        self.entries = entries;
    }

    fn copy_entries(&self) -> (v: Vec<BlacklistEntry>)
        ensures
            v@ == self.entries@,
    {
        let mut v: Vec<BlacklistEntry> = Vec::new();
        let mut i: usize = 0;
        while i < self.entries.len()
            invariant
                i <= self.entries@.len(),
                v@ == self.entries@.subrange(0, i as int),
            decreases self.entries@.len() - i,
        {
            v.push(self.entries[i]);
            assert(v@ =~= self.entries@.subrange(0, i + 1));
            i += 1;
        }
        assert(v@ =~= self.entries@);
        v
    }

    proof fn lemma_stored(before: Blacklist, after: Blacklist, entry: BlacklistEntry)
        requires
            before.wf(),
            after.wf(),
            (exists|k: int|
                before.holds(k, entry.address@) && after.entries@ == before.entries@.update(
                    k,
                    entry,
                )) || (!before.has_entry(entry.address@) && after.entries@
                == before.entries@.push(entry)),
        ensures
            after@ == before@.insert(entry.address@, (entry.is_blacklisted, entry.timestamp)),
    {
        let key = entry.address@;
        let target = before@.insert(key, (entry.is_blacklisted, entry.timestamp));
        let pos: int = if before.has_entry(key) {
            choose|k: int|
                before.holds(k, key) && after.entries@ == before.entries@.update(k, entry)
        } else {
            before.entries@.len() as int
        };
        assert(after.holds(pos, key));
        after.lemma_entry_at(pos);
        assert forall|a: Seq<u8>| after@.contains_key(a) <==> target.contains_key(a) by {
            if after.has_entry(a) {
                let i = choose|i: int| after.holds(i, a);
                assert(after.holds(i, a));
                if a != key {
                    assert(before.holds(i, a));
                }
            }
            if before.has_entry(a) {
                let i = choose|i: int| before.holds(i, a);
                assert(before.holds(i, a));
                assert(after.holds(i, a));
            }
        }
        assert forall|a: Seq<u8>| after@.contains_key(a) implies after@[a] == target[a] by {
            if a != key {
                let i = choose|i: int| after.holds(i, a);
                assert(after.holds(i, a));
                assert(before.holds(i, a));
                after.lemma_entry_at(i);
                before.lemma_entry_at(i);
            }
        }
        assert(after@ =~= target);
    }

    /// Decides whether value may move between `participants`. It may when
    /// none of them is flagged. Nothing is changed.
    pub fn permits(&self, participants: &Vec<Address>) -> (r: bool)
        ensures
            r == self.spec_permits(participants@),
    {
        let mut i: usize = 0;
        while i < participants.len()
            invariant
                i <= participants@.len(),
                forall|j: int| 0 <= j < i ==> !self.flagged(#[trigger] participants@[j]),
            decreases participants@.len() - i,
        {
            if self.is_flagged(&participants[i]) {
                assert(self.flagged(participants@[i as int]));
                return false;
            }
            i += 1;
        }
        true
    }
}

} // verus!
