//! The ledger of records and the two operations that create them.
use crate::address::{
    batch_address, find_batch_address, find_ngo_address, ngo_address, same_key,
};
use crate::state::{batch_fits, ngo_fits, text_len, Batch, Ngo, LABEL_MAX_LEN, URI_MAX_LEN};
use crate::store::{entries_map, lemma_entries_absent, lemma_entries_found, lemma_entries_push};
use vstd::prelude::*;

verus! {

/// The failures of the two operations.
#[derive(Debug, Clone, Copy, PartialEq, Eq)]
pub enum AidledgerError {
    /// The caller is not the admin of the organization.
    Unauthorized,
    /// A record already stands at the derived address.
    DuplicateAllocation,
    /// A text field is longer than its allocation holds.
    OversizedField,
    /// No organization record stands at the given address.
    NgoNotFound,
    /// No bump seed gives an address for the seeds.
    NoViableAddress,
}

/// The identities that take part in a registration: the admin who signs.
pub struct RegisterNgo {
    pub admin: [u8; 32],
}

/// The identities that take part in a submission: the signing admin and the
/// address of the organization record.
pub struct SubmitBatch {
    pub ngo: [u8; 32],
    pub admin: [u8; 32],
}

/// The notice of a submitted batch, for observers off the ledger.
#[derive(Debug, Clone, Copy, PartialEq, Eq)]
pub struct BatchSubmitted {
    pub ngo: [u8; 32],
    pub batch_index: u64,
    pub merkle_root: [u8; 32],
}

/// The records of one program: organizations and batches, each at its
/// derived address.
pub struct Ledger {
    program_id: [u8; 32],
    ngos: Vec<([u8; 32], Ngo)>,
    batches: Vec<([u8; 32], Batch)>,
}

impl Ledger {
    /// The id of the program whose addresses the ledger holds.
    pub closed spec fn program_view(&self) -> Seq<u8> {
        self.program_id@
    }

    /// The organization records, by address.
    pub closed spec fn ngos_view(&self) -> Map<Seq<u8>, Ngo> {
        entries_map(self.ngos@)
    }

    /// The batch records, by address.
    pub closed spec fn batches_view(&self) -> Map<Seq<u8>, Batch> {
        entries_map(self.batches@)
    }

    /// Every record stands at the address derived from its own fields, with
    /// the bump seed of that derivation, and its text fits its allocation;
    /// every batch refers to an organization of the ledger.
    pub closed spec fn wf(&self) -> bool {
        &&& forall|a: Seq<u8>| #[trigger]
            self.ngos_view().contains_key(a) ==> {
                let n = self.ngos_view()[a];
                &&& ngo_address(self.program_id@, n.admin@) == Some((a, n.bump))
                &&& ngo_fits(n.metadata_uri@)
            }
        &&& forall|b: Seq<u8>| #[trigger]
            self.batches_view().contains_key(b) ==> {
                let t = self.batches_view()[b];
                &&& self.ngos_view().contains_key(t.ngo@)
                &&& batch_address(self.program_id@, t.ngo@, t.batch_index) == Some((b, t.bump))
                &&& batch_fits(t.data_uri@, t.region@, t.program_tag@)
            }
    }

    /// An empty ledger for the program `program_id`.
    pub fn new(program_id: [u8; 32]) -> (r: Ledger)
        ensures
            r.wf(),
            r.program_view() == program_id@,
            r.ngos_view() == Map::<Seq<u8>, Ngo>::empty(),
            r.batches_view() == Map::<Seq<u8>, Batch>::empty(),
    {
        Ledger { program_id, ngos: Vec::new(), batches: Vec::new() }
    }

    /// The id of the program whose addresses the ledger holds.
    pub fn program_id(&self) -> (r: [u8; 32])
        ensures
            r@ == self.program_view(),
    {
        self.program_id
    }

    /// The organization record at `address`, if there is one.
    pub fn ngo(&self, address: &[u8; 32]) -> (r: Option<&Ngo>)
        ensures
            match r {
                Some(n) => self.ngos_view().contains_key(address@) && *n == self.ngos_view()[address@],
                None => !self.ngos_view().contains_key(address@),
            },
    {
        match find_entry(&self.ngos, address) {
            Some(i) => Some(&self.ngos[i].1),
            None => None,
        }
    }

    /// The batch record at `address`, if there is one.
    pub fn batch(&self, address: &[u8; 32]) -> (r: Option<&Batch>)
        ensures
            match r {
                Some(t) => self.batches_view().contains_key(address@) && *t
                    == self.batches_view()[address@],
                None => !self.batches_view().contains_key(address@),
            },
    {
        match find_entry(&self.batches, address) {
            Some(i) => Some(&self.batches[i].1),
            None => None,
        }
    }
}

/// The index of the entry that gives the record at `a`, if any.
fn find_entry<R>(s: &Vec<([u8; 32], R)>, a: &[u8; 32]) -> (r: Option<usize>)
    ensures
        match r {
            Some(i) => i < s@.len() && entries_map(s@).contains_key(a@) && entries_map(s@)[a@]
                == s@[i as int].1,
            None => !entries_map(s@).contains_key(a@),
        },
{
    let mut i: usize = s.len();
    while i > 0
        invariant
            i <= s@.len(),
            forall|j: int| i <= j < s@.len() ==> s@[j].0@ != a@,
        decreases i,
    {
        if same_key(&s[i - 1].0, a) {
            proof {
                lemma_entries_found(s@, a@, i - 1);
            }
            return Some(i - 1);
        }
        i = i - 1;
    }
    proof {
        lemma_entries_absent(s@, a@);
    }
    None
}

/// The outcome of registering `admin` with `metadata_uri` on `l`: the address
/// of the new record, or the failure.
pub open spec fn register_ngo_result(l: Ledger, admin: Seq<u8>, metadata_uri: Seq<char>) -> Result<
    Seq<u8>,
    AidledgerError,
> {
    match ngo_address(l.program_view(), admin) {
        None => Err(AidledgerError::NoViableAddress),
        Some(p) => if l.ngos_view().contains_key(p.0) {
            Err(AidledgerError::DuplicateAllocation)
        } else if !ngo_fits(metadata_uri) {
            Err(AidledgerError::OversizedField)
        } else {
            Ok(p.0)
        },
    }
}

/// What a registration does: on success the ledger gains exactly the new
/// organization record at its derived address; on failure it is unchanged.
pub open spec fn register_ngo_post(
    l: Ledger,
    ctx: RegisterNgo,
    metadata_uri: String,
    now: i64,
    l2: Ledger,
    r: Result<[u8; 32], AidledgerError>,
) -> bool {
    let expected = register_ngo_result(l, ctx.admin@, metadata_uri@);
    match r {
        Ok(a) => {
            &&& expected == Ok::<Seq<u8>, AidledgerError>(a@)
            &&& l2.program_view() == l.program_view()
            &&& l2.batches_view() == l.batches_view()
            &&& l2.ngos_view() == l.ngos_view().insert(
                a@,
                (Ngo {
                    admin: ctx.admin,
                    metadata_uri,
                    is_active: true,
                    bump: ngo_address(l.program_view(), ctx.admin@)->Some_0.1,
                    created_at: now,
                }),
            )
        },
        Err(e) => expected == Err::<Seq<u8>, AidledgerError>(e) && l2 == l,
    }
}

/// Creates the organization record of `ctx.admin`, created at `now`, and
/// returns its address.
pub fn register_ngo(ledger: &mut Ledger, ctx: RegisterNgo, metadata_uri: String, now: i64) -> (r:
    Result<[u8; 32], AidledgerError>)
    requires
        old(ledger).wf(),
    ensures
        final(ledger).wf(),
        register_ngo_post(*old(ledger), ctx, metadata_uri, now, *final(ledger), r),
{
    let found = find_ngo_address(&ledger.program_id, &ctx.admin);
    let (address, bump) = match found {
        None => {
            return Err(AidledgerError::NoViableAddress);
        },
        Some(p) => p,
    };
    if find_entry(&ledger.ngos, &address).is_some() {
        return Err(AidledgerError::DuplicateAllocation);
    }
    if text_len(&metadata_uri) > URI_MAX_LEN {
        return Err(AidledgerError::OversizedField);
    }
    let ngo = Ngo { admin: ctx.admin, metadata_uri, is_active: true, bump, created_at: now };
    let ghost before = *ledger;
    proof {
        lemma_entries_push(ledger.ngos@, (address, ngo));
    }
    ledger.ngos.push((address, ngo));
    proof {
        let l = *ledger;
        assert forall|b: Seq<u8>| #[trigger] l.batches_view().contains_key(b) implies l.ngos_view().contains_key(
            l.batches_view()[b].ngo@,
        ) by {
            assert(before.batches_view().contains_key(b));
        }
    }
    Ok(address)
}

/// The outcome of a submission by `admin` for the organization at `ngo`: the
/// address of the new batch record, or the failure.
pub open spec fn submit_batch_result(
    l: Ledger,
    admin: Seq<u8>,
    ngo: Seq<u8>,
    batch_index: u64,
    data_uri: Seq<char>,
    region: Seq<char>,
    program_tag: Seq<char>,
) -> Result<Seq<u8>, AidledgerError> {
    if !l.ngos_view().contains_key(ngo) {
        Err(AidledgerError::NgoNotFound)
    } else if l.ngos_view()[ngo].admin@ != admin {
        Err(AidledgerError::Unauthorized)
    } else {
        match batch_address(l.program_view(), ngo, batch_index) {
            None => Err(AidledgerError::NoViableAddress),
            Some(p) => if l.batches_view().contains_key(p.0) {
                Err(AidledgerError::DuplicateAllocation)
            } else if !batch_fits(data_uri, region, program_tag) {
                Err(AidledgerError::OversizedField)
            } else {
                Ok(p.0)
            },
        }
    }
}

/// What a submission does: on success the ledger gains exactly the new batch
/// record, holding the submitted values, at its derived address, and the
/// notice repeats its organization, index and root; on failure the ledger is
/// unchanged.
pub open spec fn submit_batch_post(
    l: Ledger,
    ctx: SubmitBatch,
    batch_index: u64,
    merkle_root: [u8; 32],
    data_uri: String,
    region: String,
    program_tag: String,
    start_time: i64,
    end_time: i64,
    l2: Ledger,
    r: Result<BatchSubmitted, AidledgerError>,
) -> bool {
    let expected = submit_batch_result(
        l,
        ctx.admin@,
        ctx.ngo@,
        batch_index,
        data_uri@,
        region@,
        program_tag@,
    );
    match r {
        Ok(ev) => {
            &&& expected is Ok
            &&& ev == (BatchSubmitted { ngo: ctx.ngo, batch_index, merkle_root })
            &&& l2.program_view() == l.program_view()
            &&& l2.ngos_view() == l.ngos_view()
            &&& l2.batches_view() == l.batches_view().insert(
                expected->Ok_0,
                (Batch {
                    ngo: ctx.ngo,
                    batch_index,
                    merkle_root,
                    data_uri,
                    region,
                    program_tag,
                    start_time,
                    end_time,
                    is_flagged: false,
                    bump: batch_address(l.program_view(), ctx.ngo@, batch_index)->Some_0.1,
                }),
            )
        },
        Err(e) => expected == Err::<Seq<u8>, AidledgerError>(e) && l2 == l,
    }
}

/// Creates the batch record of the organization at `ctx.ngo` at
/// `batch_index`, on behalf of its admin `ctx.admin`, and returns the notice
/// of it.
pub fn submit_batch(
    ledger: &mut Ledger,
    ctx: SubmitBatch,
    batch_index: u64,
    merkle_root: [u8; 32],
    data_uri: String,
    region: String,
    program_tag: String,
    start_time: i64,
    end_time: i64,
) -> (r: Result<BatchSubmitted, AidledgerError>)
    requires
        old(ledger).wf(),
    ensures
        final(ledger).wf(),
        submit_batch_post(
            *old(ledger),
            ctx,
            batch_index,
            merkle_root,
            data_uri,
            region,
            program_tag,
            start_time,
            end_time,
            *final(ledger),
            r,
        ),
{
    let i = match find_entry(&ledger.ngos, &ctx.ngo) {
        None => {
            return Err(AidledgerError::NgoNotFound);
        },
        Some(i) => i,
    };
    if !same_key(&ledger.ngos[i].1.admin, &ctx.admin) {
        return Err(AidledgerError::Unauthorized);
    }
    let found = find_batch_address(&ledger.program_id, &ctx.ngo, batch_index);
    let (address, bump) = match found {
        None => {
            return Err(AidledgerError::NoViableAddress);
        },
        Some(p) => p,
    };
    if find_entry(&ledger.batches, &address).is_some() {
        return Err(AidledgerError::DuplicateAllocation);
    }
    if text_len(&data_uri) > URI_MAX_LEN || text_len(&region) > LABEL_MAX_LEN || text_len(
        &program_tag,
    ) > LABEL_MAX_LEN {
        return Err(AidledgerError::OversizedField);
    }
    let batch = Batch {
        ngo: ctx.ngo,
        batch_index,
        merkle_root,
        data_uri,
        region,
        program_tag,
        start_time,
        end_time,
        is_flagged: false,
        bump,
    };
    proof {
        lemma_entries_push(ledger.batches@, (address, batch));
    }
    ledger.batches.push((address, batch));
    Ok(BatchSubmitted { ngo: ctx.ngo, batch_index, merkle_root })
}

} // verus!
