//! Properties that relate the operations of the ledger across calls.
use crate::address::{batch_address, ngo_address};
use crate::instructions::{
    register_ngo_post, submit_batch_post, AidledgerError, BatchSubmitted, Ledger, RegisterNgo,
    SubmitBatch,
};
use crate::state::{byte_len, ngo_fits};
use vstd::prelude::*;

verus! {

/// An admin who is not yet registered registers once with success; a second
/// registration of the same admin fails as a duplicate, and the record keeps
/// that admin.
pub proof fn lemma_register_once(
    l0: Ledger,
    l1: Ledger,
    l2: Ledger,
    admin: [u8; 32],
    uri1: String,
    uri2: String,
    now1: i64,
    now2: i64,
    r1: Result<[u8; 32], AidledgerError>,
    r2: Result<[u8; 32], AidledgerError>,
)
    requires
        ngo_address(l0.program_view(), admin@) is Some,
        !l0.ngos_view().contains_key(ngo_address(l0.program_view(), admin@)->Some_0.0),
        ngo_fits(uri1@),
        register_ngo_post(l0, RegisterNgo { admin }, uri1, now1, l1, r1),
        register_ngo_post(l1, RegisterNgo { admin }, uri2, now2, l2, r2),
    ensures
        r1 is Ok,
        r2 == Err::<[u8; 32], AidledgerError>(AidledgerError::DuplicateAllocation),
        l2.ngos_view().contains_key(r1->Ok_0@),
        l2.ngos_view()[r1->Ok_0@].admin == admin,
{
}

/// A submission by anyone but the organization's admin fails as unauthorized
/// and adds no batch.
pub proof fn lemma_submit_unauthorized(
    l0: Ledger,
    l1: Ledger,
    ctx: SubmitBatch,
    batch_index: u64,
    merkle_root: [u8; 32],
    data_uri: String,
    region: String,
    program_tag: String,
    start_time: i64,
    end_time: i64,
    r: Result<BatchSubmitted, AidledgerError>,
)
    requires
        l0.ngos_view().contains_key(ctx.ngo@),
        l0.ngos_view()[ctx.ngo@].admin@ != ctx.admin@,
        submit_batch_post(
            l0,
            ctx,
            batch_index,
            merkle_root,
            data_uri,
            region,
            program_tag,
            start_time,
            end_time,
            l1,
            r,
        ),
    ensures
        r == Err::<BatchSubmitted, AidledgerError>(AidledgerError::Unauthorized),
        l1.batches_view() == l0.batches_view(),
{
}

/// After a successful submission at index `i`, a submission at another index
/// `j` of the same organization comes out as it would have without the first,
/// and on success both records stand, each referring to the organization.
/// Left out: seeds of the two indices that give the same address.
pub proof fn lemma_index_isolation(
    l0: Ledger,
    l1: Ledger,
    l2: Ledger,
    l2_alone: Ledger,
    ctx_i: SubmitBatch,
    ctx_j: SubmitBatch,
    i: u64,
    j: u64,
    root_i: [u8; 32],
    root_j: [u8; 32],
    uri_i: String,
    uri_j: String,
    region_i: String,
    region_j: String,
    tag_i: String,
    tag_j: String,
    start_i: i64,
    start_j: i64,
    end_i: i64,
    end_j: i64,
    r1: Result<BatchSubmitted, AidledgerError>,
    r2: Result<BatchSubmitted, AidledgerError>,
    r2_alone: Result<BatchSubmitted, AidledgerError>,
)
    requires
        ctx_i.ngo == ctx_j.ngo,
        i != j,
        batch_address(l0.program_view(), ctx_i.ngo@, i) is Some && batch_address(
            l0.program_view(),
            ctx_j.ngo@,
            j,
        ) is Some ==> batch_address(l0.program_view(), ctx_i.ngo@, i)->Some_0.0 != batch_address(
            l0.program_view(),
            ctx_j.ngo@,
            j,
        )->Some_0.0,
        submit_batch_post(
            l0,
            ctx_i,
            i,
            root_i,
            uri_i,
            region_i,
            tag_i,
            start_i,
            end_i,
            l1,
            r1,
        ),
        r1 is Ok,
        submit_batch_post(
            l1,
            ctx_j,
            j,
            root_j,
            uri_j,
            region_j,
            tag_j,
            start_j,
            end_j,
            l2,
            r2,
        ),
        submit_batch_post(
            l0,
            ctx_j,
            j,
            root_j,
            uri_j,
            region_j,
            tag_j,
            start_j,
            end_j,
            l2_alone,
            r2_alone,
        ),
    ensures
        r2 == r2_alone,
        r2 is Ok ==> {
            let p = l0.program_view();
            let a_i = batch_address(p, ctx_i.ngo@, i)->Some_0.0;
            let a_j = batch_address(p, ctx_j.ngo@, j)->Some_0.0;
            &&& l2.batches_view().contains_key(a_i)
            &&& l2.batches_view().contains_key(a_j)
            &&& l2.batches_view()[a_i] == l1.batches_view()[a_i]
            &&& l2.batches_view()[a_j] == l2_alone.batches_view()[a_j]
            &&& l2.batches_view()[a_i].ngo == ctx_i.ngo
            &&& l2.batches_view()[a_j].ngo == ctx_i.ngo
            &&& l2.batches_view()[a_i].batch_index == i
            &&& l2.batches_view()[a_j].batch_index == j
        },
{
    let p = l0.program_view();
    let a_i = batch_address(p, ctx_i.ngo@, i)->Some_0.0;
    assert(l1.batches_view() == l0.batches_view().insert(a_i, l1.batches_view()[a_i]));
}

/// A successful submission stores every submitted value as given, and its
/// notice repeats the stored organization, index and root.
pub proof fn lemma_submit_fidelity(
    l0: Ledger,
    l1: Ledger,
    ctx: SubmitBatch,
    batch_index: u64,
    merkle_root: [u8; 32],
    data_uri: String,
    region: String,
    program_tag: String,
    start_time: i64,
    end_time: i64,
    r: Result<BatchSubmitted, AidledgerError>,
)
    requires
        submit_batch_post(
            l0,
            ctx,
            batch_index,
            merkle_root,
            data_uri,
            region,
            program_tag,
            start_time,
            end_time,
            l1,
            r,
        ),
        r is Ok,
    ensures
        ({
            let a = batch_address(l0.program_view(), ctx.ngo@, batch_index)->Some_0.0;
            let t = l1.batches_view()[a];
            let ev = r->Ok_0;
            &&& l1.batches_view().contains_key(a)
            &&& t.ngo == ctx.ngo
            &&& t.batch_index == batch_index
            &&& t.merkle_root == merkle_root
            &&& t.data_uri == data_uri
            &&& t.region == region
            &&& t.program_tag == program_tag
            &&& t.start_time == start_time
            &&& t.end_time == end_time
            &&& !t.is_flagged
            &&& ev.ngo == t.ngo
            &&& ev.batch_index == t.batch_index
            &&& ev.merkle_root == t.merkle_root
        }),
{
}

/// A metadata URI one byte over its bound is refused; one at the bound is
/// taken, when nothing else stands in the way.
pub proof fn lemma_metadata_uri_bound(
    l0: Ledger,
    l1: Ledger,
    ctx: RegisterNgo,
    metadata_uri: String,
    now: i64,
    r: Result<[u8; 32], AidledgerError>,
)
    requires
        ngo_address(l0.program_view(), ctx.admin@) is Some,
        !l0.ngos_view().contains_key(ngo_address(l0.program_view(), ctx.admin@)->Some_0.0),
        register_ngo_post(l0, ctx, metadata_uri, now, l1, r),
    ensures
        byte_len(metadata_uri@) == 257 ==> r == Err::<[u8; 32], AidledgerError>(
            AidledgerError::OversizedField,
        ),
        byte_len(metadata_uri@) == 256 ==> r is Ok,
{
}

/// A data URI one byte over its bound is refused; one at the bound is taken,
/// when nothing else stands in the way.
pub proof fn lemma_data_uri_bound(
    l0: Ledger,
    l1: Ledger,
    ctx: SubmitBatch,
    batch_index: u64,
    merkle_root: [u8; 32],
    data_uri: String,
    region: String,
    program_tag: String,
    start_time: i64,
    end_time: i64,
    r: Result<BatchSubmitted, AidledgerError>,
)
    requires
        l0.ngos_view().contains_key(ctx.ngo@),
        l0.ngos_view()[ctx.ngo@].admin@ == ctx.admin@,
        batch_address(l0.program_view(), ctx.ngo@, batch_index) is Some,
        !l0.batches_view().contains_key(
            batch_address(l0.program_view(), ctx.ngo@, batch_index)->Some_0.0,
        ),
        byte_len(region@) <= 64,
        byte_len(program_tag@) <= 64,
        submit_batch_post(
            l0,
            ctx,
            batch_index,
            merkle_root,
            data_uri,
            region,
            program_tag,
            start_time,
            end_time,
            l1,
            r,
        ),
    ensures
        byte_len(data_uri@) == 257 ==> r == Err::<BatchSubmitted, AidledgerError>(
            AidledgerError::OversizedField,
        ),
        byte_len(data_uri@) == 256 ==> r is Ok,
{
}

} // verus!
