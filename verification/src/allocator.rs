//! Size and placement arithmetic for an allocator that is built over a system `realloc` which
//! promises no alignment.
//!
//! Every allocation is over-sized so that, wherever the system places it, the data can be shifted
//! forward to an aligned address, with the shift amount stored in the `usize` just in front of the
//! data so that it can be recovered on free.
use vstd::prelude::*;

verus! {

/// The number of bytes used to store the shift in front of the data: `size_of::<usize>()`.
pub open spec fn shift_storage_size() -> int {
    usize::BITS as int / 8
}

/// The space reserved for the stored shift: the smallest multiple of `align` that is at least the
/// storage size.
pub open spec fn shift_storage_room(align: int) -> int {
    let storage = shift_storage_size();
    if storage % align == 0 {
        storage
    } else {
        (storage / align + 1) * align
    }
}

/// The number of bytes to request from the system for `size` bytes of data aligned to `align`.
pub open spec fn alloc_size_spec(size: int, align: int) -> int {
    size + (align - 1) + shift_storage_room(align)
}

/// Whether moving the system's address `addr` ahead by `shift` bytes gives a multiple of `align`.
pub open spec fn shift_aligns(addr: int, align: int, shift: int) -> bool {
    (addr + shift) % align == 0
}

/// Whether `shift` is the least shift, of at least the storage size, that moves `addr` to a
/// multiple of `align`.
pub open spec fn is_least_aligned_shift(addr: int, align: int, shift: int) -> bool {
    &&& shift >= shift_storage_size()
    &&& shift_aligns(addr, align, shift)
    &&& forall|s: int| shift_storage_size() <= s < shift ==> !#[trigger] shift_aligns(addr, align, s)
}

/// How far past the system's address `addr` the data is placed, for alignment `align`: the least
/// shift, of at least the storage size, that moves `addr` to a multiple of `align`.
pub open spec fn shift_for_align_spec(addr: int, align: int) -> int {
    choose|shift: int| is_least_aligned_shift(addr, align, shift)
}

/// The shift as `calc_shift_for_align` computes it: up to the next multiple of `align`, then on by whole
/// multiples of `align` until the storage fits.
spec fn shift_formula(addr: int, align: int) -> int {
    let storage = shift_storage_size();
    let shift = align - addr % align;
    if shift >= storage {
        shift
    } else {
        let needed = storage - shift;
        if needed % align == 0 {
            shift + needed
        } else {
            shift + ((needed + align) / align) * align
        }
    }
}

proof fn lemma_storage_size()
    ensures
        shift_storage_size() == 4 || shift_storage_size() == 8,
{
}

/// Computes how much space needs to be allocated such that `size` bytes of data can be aligned to
/// `align` in that space, with room for a `usize` in front of the data.
pub fn calc_alloc_size(size: usize, align: usize) -> (r: usize)
    requires
        align > 0,
        alloc_size_spec(size as int, align as int) <= usize::MAX,
    ensures
        r == alloc_size_spec(size as int, align as int),
{
    let shift_storage_size: usize = (usize::BITS / 8) as usize;
    let alloc_size = size + (align - 1);
    if shift_storage_size % align == 0 {
        alloc_size + shift_storage_size
    } else {
        let aligned = ((shift_storage_size / align) + 1) * align;
        alloc_size + aligned
    }
}

/// Computes how far to move a pointer returned by the system at address `addr` so that it is
/// aligned to `align`, while always leaving room in front of it to store the shift.
pub fn calc_shift_for_align(addr: u64, align: usize) -> (r: usize)
    requires
        align > 0,
        align + shift_storage_size() <= usize::MAX,
    ensures
        is_least_aligned_shift(addr as int, align as int, r as int),
        r == shift_for_align_spec(addr as int, align as int),
{
    proof {
        lemma_storage_size();
        lemma_shift_bounds(addr as int, align as int);
        lemma_shift_is_least(addr as int, align as int);
    }
    let shift_storage_size: u64 = (usize::BITS / 8) as u64;
    let align: u64 = align as u64;
    let shift = align - addr % align;
    if shift >= shift_storage_size {
        shift as usize
    } else {
        let needed = shift_storage_size - shift;
        if needed % align == 0 {
            (shift + needed) as usize
        } else {
            let aligned_needed = ((needed + align) / align) * align;
            (shift + aligned_needed) as usize
        }
    }
}

/// The stored shift always fits in front of the data: the shift is at least the storage size and
/// at most `storage + align - 1`.
proof fn lemma_shift_bounds(addr: int, align: int)
    requires
        align > 0,
        addr >= 0,
    ensures
        shift_storage_size() <= shift_formula(addr, align),
        shift_formula(addr, align) <= shift_storage_size() + align - 1,
        (addr + shift_formula(addr, align)) % align == 0,
{
    lemma_storage_size();
    let storage = shift_storage_size();
    let q = addr / align;
    let r = addr % align;
    vstd::arithmetic::div_mod::lemma_fundamental_div_mod(addr, align);
    assert(0 <= r < align);
    let shift = align - r;
    if shift >= storage {
        assert(addr + shift == align * (q + 1)) by (nonlinear_arith)
            requires
                addr == align * q + r,
                shift == align - r,
        ;
        vstd::arithmetic::div_mod::lemma_mod_multiples_basic(q + 1, align);
        assert((q + 1) * align == align * (q + 1)) by (nonlinear_arith);
    } else {
        let needed = storage - shift;
        vstd::arithmetic::div_mod::lemma_fundamental_div_mod(needed, align);
        let nq = needed / align;
        let nr = needed % align;
        if nr == 0 {
            assert(addr + shift + needed == align * (q + 1 + nq)) by (nonlinear_arith)
                requires
                    addr == align * q + r,
                    shift == align - r,
                    needed == align * nq + nr,
                    nr == 0,
            ;
            vstd::arithmetic::div_mod::lemma_mod_multiples_basic(q + 1 + nq, align);
            assert((q + 1 + nq) * align == align * (q + 1 + nq)) by (nonlinear_arith);
        } else {
            let k = (needed + align) / align;
            vstd::arithmetic::div_mod::lemma_fundamental_div_mod(needed + align, align);
            assert(k == nq + 1) by {
                assert(needed + align == align * (nq + 1) + nr) by (nonlinear_arith)
                    requires
                        needed == align * nq + nr,
                ;
                vstd::arithmetic::div_mod::lemma_fundamental_div_mod_converse(
                    needed + align,
                    align,
                    nq + 1,
                    nr,
                );
            }
            assert(k * align == needed + align - nr) by (nonlinear_arith)
                requires
                    k == nq + 1,
                    needed == align * nq + nr,
            ;
            assert(addr + shift + k * align == align * (q + 1 + k)) by (nonlinear_arith)
                requires
                    addr == align * q + r,
                    shift == align - r,
            ;
            vstd::arithmetic::div_mod::lemma_mod_multiples_basic(q + 1 + k, align);
            assert((q + 1 + k) * align == align * (q + 1 + k)) by (nonlinear_arith);
        }
    }
}

/// Two shifts that move `addr` to multiples of `align` differ by a multiple of `align`, so two
/// that are less than `align` apart are equal.
proof fn lemma_aligning_shifts_apart(addr: int, align: int, s: int, t: int)
    requires
        align > 0,
        addr >= 0,
        0 <= s <= t < s + align,
        shift_aligns(addr, align, s),
        shift_aligns(addr, align, t),
    ensures
        s == t,
{
    vstd::arithmetic::div_mod::lemma_fundamental_div_mod(addr + s, align);
    vstd::arithmetic::div_mod::lemma_fundamental_div_mod(addr + t, align);
    let ks = (addr + s) / align;
    let kt = (addr + t) / align;
    assert(t - s == align * (kt - ks)) by (nonlinear_arith)
        requires
            addr + s == align * ks,
            addr + t == align * kt,
    ;
    assert(kt - ks == 0) by (nonlinear_arith)
        requires
            t - s == align * (kt - ks),
            0 <= t - s < align,
            align > 0,
    ;
}

/// The computed shift is the least shift, of at least the storage size, that moves `addr` to a
/// multiple of `align`, and so it is the one that `shift_for_align_spec` names.
proof fn lemma_shift_is_least(addr: int, align: int)
    requires
        align > 0,
        addr >= 0,
    ensures
        is_least_aligned_shift(addr, align, shift_formula(addr, align)),
        shift_for_align_spec(addr, align) == shift_formula(addr, align),
{
    let f = shift_formula(addr, align);
    lemma_shift_bounds(addr, align);
    assert forall|s: int| shift_storage_size() <= s < f implies !#[trigger] shift_aligns(
        addr,
        align,
        s,
    ) by {
        if shift_aligns(addr, align, s) {
            lemma_aligning_shifts_apart(addr, align, s, f);
        }
    }
    assert(is_least_aligned_shift(addr, align, f));
    let c = shift_for_align_spec(addr, align);
    assert(is_least_aligned_shift(addr, align, c));
    if c < f {
        assert(shift_aligns(addr, align, c));
    } else if f < c {
        assert(!shift_aligns(addr, align, f));
    }
}

/// The room reserved for the stored shift is a multiple of `align` that is at least the storage
/// size.
proof fn lemma_storage_room(align: int)
    requires
        align > 0,
    ensures
        shift_storage_size() <= shift_storage_room(align),
        shift_storage_room(align) % align == 0,
{
    lemma_storage_size();
    let storage = shift_storage_size();
    vstd::arithmetic::div_mod::lemma_fundamental_div_mod(storage, align);
    if storage % align != 0 {
        let q = storage / align;
        assert((q + 1) * align > storage) by (nonlinear_arith)
            requires
                storage == align * q + storage % align,
                storage % align < align,
        ;
        vstd::arithmetic::div_mod::lemma_mod_multiples_basic(q + 1, align);
    }
}

/// Wherever the system places an allocation of `calc_alloc_size(size, align)` bytes, moving the
/// pointer ahead by `calc_shift_for_align(addr, align)` gives an address that is aligned to
/// `align`, that leaves room in front of it for the stored shift, and whose `size` bytes of data
/// end within the allocation.
pub proof fn lemma_shifted_data_fits(addr: int, size: int, align: int)
    requires
        addr >= 0,
        size >= 0,
        align > 0,
    ensures
        (addr + shift_for_align_spec(addr, align)) % align == 0,
        shift_for_align_spec(addr, align) >= shift_storage_size(),
        size + shift_for_align_spec(addr, align) <= alloc_size_spec(size, align),
{
    lemma_shift_bounds(addr, align);
    lemma_shift_is_least(addr, align);
    lemma_storage_room(align);
}

} // verus!
