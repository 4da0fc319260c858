use vstd::prelude::*;

verus! {

// A WebAssembly binary is an 8-byte preamble followed by sections, each
// `id: u8`, `size: uleb128`, `size` bytes of body.  A custom section
// (id 0) starts its body with `name-len: uleb128`, the name bytes, then
// the section data.  Signed claims ride in a custom section named `jwt`
// or `wasmcloud_jwt`; the module hash recorded inside them covers the
// module with exactly those sections removed.

/// Bound on LEB128 values read here: five 7-bit groups.
pub open spec fn leb_limit() -> nat {
    0x8_0000_0000
}

/// Little-endian base-128 value starting at `i`, with at most `k` bytes,
/// together with the index just past it.
pub open spec fn leb_at(b: Seq<u8>, i: int, k: nat) -> Option<(nat, int)>
    decreases k,
{
    if k == 0 || !(0 <= i < b.len()) {
        None
    } else if b[i] < 0x80 {
        Some((b[i] as nat, i + 1))
    } else {
        match leb_at(b, i + 1, (k - 1) as nat) {
            None => None,
            Some((v, j)) => Some(((b[i] - 0x80) as nat + 128 * v, j)),
        }
    }
}

/// `128^k` is positive.
pub proof fn lemma_pow128_pos(k: nat)
    ensures
        pow128(k) >= 1,
    decreases k,
{
    if k > 0 {
        lemma_pow128_pos((k - 1) as nat);
    }
}

/// A decoded LEB128 value advances the cursor and stays under `128^k`.
pub proof fn lemma_leb_bounds(b: Seq<u8>, i: int, k: nat)
    ensures
        leb_at(b, i, k) matches Some(vj) ==> i < vj.1 <= b.len() && vj.0 < pow128(k),
    decreases k,
{
    if k > 0 && 0 <= i < b.len() {
        assert(pow128(k) == 128 * pow128((k - 1) as nat));
        lemma_pow128_pos((k - 1) as nat);
        if b[i] >= 0x80 {
            lemma_leb_bounds(b, i + 1, (k - 1) as nat);
        }
    }
}

/// `128^k`.
pub open spec fn pow128(k: nat) -> nat
    decreases k,
{
    if k == 0 {
        1
    } else {
        128 * pow128((k - 1) as nat)
    }
}

/// The section name `jwt`, as bytes.
pub open spec fn jwt_name() -> Seq<u8> {
    seq![106u8, 119u8, 116u8]
}

/// The section name `wasmcloud_jwt`, as bytes.
pub open spec fn wc_jwt_name() -> Seq<u8> {
    seq![119u8, 97u8, 115u8, 109u8, 99u8, 108u8, 111u8, 117u8, 100u8, 95u8, 106u8, 119u8, 116u8]
}

/// Data of a custom-section body whose name is a claims section name.
pub open spec fn section_jwt_data(body: Seq<u8>) -> Option<Seq<u8>> {
    match leb_at(body, 0, 5) {
        None => None,
        Some((n, j)) => if j + n > body.len() {
            None
        } else {
            let name = body.subrange(j, j + n as int);
            if name == jwt_name() || name == wc_jwt_name() {
                Some(body.subrange(j + n as int, body.len() as int))
            } else {
                None
            }
        },
    }
}

/// First claims token found scanning top-level sections from `i`.
pub open spec fn find_jwt_from(b: Seq<u8>, i: int) -> Option<Seq<u8>>
    decreases b.len() - i when 0 <= i <= b.len() via find_jwt_from_decreases
{
    if i >= b.len() {
        None
    } else {
        match leb_at(b, i + 1, 5) {
            None => None,
            Some((sz, j)) => if j + sz > b.len() {
                None
            } else {
                let body = b.subrange(j, j + sz as int);
                if b[i] == 0 && section_jwt_data(body) is Some {
                    section_jwt_data(body)
                } else {
                    find_jwt_from(b, j + sz as int)
                }
            },
        }
    }
}

#[via_fn]
proof fn find_jwt_from_decreases(b: Seq<u8>, i: int) {
    lemma_leb_bounds(b, i + 1, 5);
}

/// The module bytes from `i` on with claims sections dropped; `None` when
/// the section framing is unreadable.
pub open spec fn strip_from(b: Seq<u8>, i: int) -> Option<Seq<u8>>
    decreases b.len() - i when 0 <= i <= b.len() via strip_from_decreases
{
    if i >= b.len() {
        Some(Seq::empty())
    } else {
        match leb_at(b, i + 1, 5) {
            None => None,
            Some((sz, j)) => if j + sz > b.len() {
                None
            } else {
                let keep = !(b[i] == 0 && section_jwt_data(b.subrange(j, j + sz as int)) is Some);
                match strip_from(b, j + sz as int) {
                    None => None,
                    Some(rest) => if keep {
                        Some(b.subrange(i, j + sz as int) + rest)
                    } else {
                        Some(rest)
                    },
                }
            },
        }
    }
}

#[via_fn]
proof fn strip_from_decreases(b: Seq<u8>, i: int) {
    lemma_leb_bounds(b, i + 1, 5);
}

/// Claims token embedded in a whole module, if any.
pub open spec fn jwt_section_of(w: Seq<u8>) -> Option<Seq<u8>> {
    if w.len() < 8 {
        None
    } else {
        find_jwt_from(w, 8)
    }
}

/// The whole module with claims sections dropped: the hash target.
pub open spec fn stripped(w: Seq<u8>) -> Option<Seq<u8>> {
    if w.len() < 8 {
        None
    } else {
        match strip_from(w, 8) {
            None => None,
            Some(r) => Some(w.subrange(0, 8) + r),
        }
    }
}

/// Reads one LEB128 value of at most `k` bytes at `i`.
fn parse_leb(b: &Vec<u8>, i: usize, k: u8) -> (r: Option<(u64, usize)>)
    requires
        i <= b@.len(),
        k <= 5,
    ensures
        match r {
            Some(vj) => leb_at(b@, i as int, k as nat) == Some((vj.0 as nat, vj.1 as int))
                && i < vj.1 <= b@.len() && vj.0 < leb_limit(),
            None => leb_at(b@, i as int, k as nat) is None,
        },
    decreases k,
{
    if k == 0 || i >= b.len() {
        return None;
    }
    let x = b[i];
    if x < 0x80 {
        Some((x as u64, i + 1))
    } else {
        match parse_leb(b, i + 1, k - 1) {
            None => None,
            Some((v, j)) => {
                proof {
                    lemma_leb_bounds(b@, i as int + 1, (k - 1) as nat);
                    lemma_pow128_mono((k - 1) as nat);
                    lemma_leb_bounds(b@, i as int, k as nat);
                    lemma_pow128_mono(k as nat);
                }
                let hi: u64 = 128 * v;
                Some(((x - 0x80) as u64 + hi, j))
            },
        }
    }
}

/// `128^k` stays below the LEB bound while `k <= 5`.
proof fn lemma_pow128_mono(k: nat)
    requires
        k <= 5,
    ensures
        pow128(k) <= leb_limit(),
{
    assert(pow128(0) == 1);
    assert(pow128(1) == 128 * pow128(0));
    assert(pow128(2) == 128 * pow128(1));
    assert(pow128(3) == 128 * pow128(2));
    assert(pow128(4) == 128 * pow128(3));
    assert(pow128(5) == 128 * pow128(4));
}

/// Copies `b[lo..hi]` out as a fresh vector.
pub fn copy_range(b: &Vec<u8>, lo: usize, hi: usize) -> (r: Vec<u8>)
    requires
        lo <= hi <= b@.len(),
    ensures
        r@ == b@.subrange(lo as int, hi as int),
{
    let mut out: Vec<u8> = Vec::new();
    let mut i: usize = lo;
    while i < hi
        invariant
            lo <= i <= hi <= b@.len(),
            out@ == b@.subrange(lo as int, i as int),
        decreases hi - i,
    {
        out.push(b[i]);
        proof {
            assert(out@ =~= b@.subrange(lo as int, i as int + 1));
        }
        i = i + 1;
    }
    out
}

/// Whether two byte vectors hold the same bytes.
pub fn bytes_eq(a: &Vec<u8>, b: &Vec<u8>) -> (r: bool)
    ensures
        r == (a@ == b@),
{
    if a.len() != b.len() {
        proof {
            assert(a@.len() != b@.len());
        }
        return false;
    }
    let mut i: usize = 0;
    while i < a.len()
        invariant
            i <= a@.len(),
            a@.len() == b@.len(),
            forall|t: int| 0 <= t < i ==> a@[t] == b@[t],
        decreases a@.len() - i,
    {
        if a[i] != b[i] {
            return false;
        }
        i = i + 1;
    }
    proof {
        assert(a@ =~= b@);
    }
    true
}

/// Data of the custom-section body when it is a claims section.
fn parse_section_jwt_data(body: &Vec<u8>) -> (r: Option<Vec<u8>>)
    ensures
        match r {
            Some(d) => section_jwt_data(body@) == Some(d@),
            None => section_jwt_data(body@) is None,
        },
{
    match parse_leb(body, 0, 5) {
        None => None,
        Some((n, j)) => {
            if n > body.len() as u64 || j > body.len() - (n as usize) {
                return None;
            }
            let name = copy_range(body, j, j + n as usize);
            let jwt: Vec<u8> = vec![106u8, 119u8, 116u8];
            let wc: Vec<u8> = vec![
                119u8, 97u8, 115u8, 109u8, 99u8, 108u8, 111u8, 117u8, 100u8, 95u8, 106u8, 119u8,
                116u8,
            ];
            if bytes_eq(&name, &jwt) || bytes_eq(&name, &wc) {
                Some(copy_range(body, j + n as usize, body.len()))
            } else {
                None
            }
        },
    }
}

/// Scans top-level sections from `i` for an embedded claims token.
fn scan_jwt_from(b: &Vec<u8>, i: usize) -> (r: Option<Vec<u8>>)
    requires
        i <= b@.len(),
    ensures
        match r {
            Some(d) => find_jwt_from(b@, i as int) == Some(d@),
            None => find_jwt_from(b@, i as int) is None,
        },
    decreases b@.len() - i,
{
    if i >= b.len() {
        return None;
    }
    match parse_leb(b, i + 1, 5) {
        None => None,
        Some((sz, j)) => {
            if sz > b.len() as u64 || j > b.len() - (sz as usize) {
                return None;
            }
            let body = copy_range(b, j, j + sz as usize);
            if b[i] == 0 {
                if let Some(d) = parse_section_jwt_data(&body) {
                    return Some(d);
                }
            }
            scan_jwt_from(b, j + sz as usize)
        },
    }
}

/// Drops claims sections from `b[i..]`, keeping everything else verbatim.
fn strip_rec(b: &Vec<u8>, i: usize) -> (r: Option<Vec<u8>>)
    requires
        i <= b@.len(),
    ensures
        match r {
            Some(v) => strip_from(b@, i as int) == Some(v@),
            None => strip_from(b@, i as int) is None,
        },
    decreases b@.len() - i,
{
    if i >= b.len() {
        return Some(Vec::new());
    }
    match parse_leb(b, i + 1, 5) {
        None => None,
        Some((sz, j)) => {
            if sz > b.len() as u64 || j > b.len() - (sz as usize) {
                return None;
            }
            let body = copy_range(b, j, j + sz as usize);
            let drop_it = b[i] == 0 && parse_section_jwt_data(&body).is_some();
            match strip_rec(b, j + sz as usize) {
                None => None,
                Some(mut rest) => if drop_it {
                    Some(rest)
                } else {
                    let mut sect = copy_range(b, i, j + sz as usize);
                    sect.append(&mut rest);
                    Some(sect)
                },
            }
        },
    }
}

/// Claims token embedded in the module, if any.
pub fn jwt_section(w: &Vec<u8>) -> (r: Option<Vec<u8>>)
    ensures
        match r {
            Some(d) => jwt_section_of(w@) == Some(d@),
            None => jwt_section_of(w@) is None,
        },
{
    if w.len() < 8 {
        return None;
    }
    scan_jwt_from(w, 8)
}

/// The module with claims sections dropped: the hash target.
pub fn strip_claims_sections(w: &Vec<u8>) -> (r: Option<Vec<u8>>)
    ensures
        match r {
            Some(v) => stripped(w@) == Some(v@),
            None => stripped(w@) is None,
        },
{
    if w.len() < 8 {
        return None;
    }
    match strip_rec(w, 8) {
        None => None,
        Some(mut rest) => {
            let mut out = copy_range(w, 0, 8);
            out.append(&mut rest);
            Some(out)
        },
    }
}

} // verus!
