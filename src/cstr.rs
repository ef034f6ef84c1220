use vstd::prelude::*;

use vstd::string::StringSliceAdditionalSpecFns;

use crate::error::{Error, Result};

verus! {

/// Whether a byte sequence holds a nul byte.
pub open spec fn has_nul(s: Seq<u8>) -> bool {
    exists|i: int| 0 <= i < s.len() && s[i] == 0
}

/// Whether `i` is the position of the first nul byte of `s`.
pub open spec fn is_first_nul(s: Seq<u8>, i: int) -> bool {
    &&& 0 <= i < s.len()
    &&& s[i] == 0
    &&& forall|j: int| 0 <= j < i ==> s[j] != 0
}

/// Where a buffer's text ends: the position of its first nul byte, or its
/// length where it holds none.
pub open spec fn nul_index(s: Seq<u8>) -> int {
    if has_nul(s) {
        choose|i: int| is_first_nul(s, i)
    } else {
        s.len() as int
    }
}

/// The text of a nul-terminated buffer: the bytes before its first nul.
pub open spec fn content_of(buf: Seq<u8>) -> Seq<u8> {
    buf.take(nul_index(buf))
}

/// The buffer that text becomes on its way to the native library.
pub open spec fn cstring_of(s: Seq<u8>) -> Seq<u8> {
    s.push(0)
}

/// The buffers that a list of texts becomes, one for each, in order.
pub open spec fn cstrings_of(items: Seq<Seq<u8>>) -> Seq<Seq<u8>> {
    items.map_values(|s: Seq<u8>| cstring_of(s))
}

/// The texts that a list of native buffers holds, one for each, in order.
pub open spec fn contents_of(bufs: Seq<Seq<u8>>) -> Seq<Seq<u8>> {
    bufs.map_values(|b: Seq<u8>| content_of(b))
}

/// The bytes of each text of a list.
pub open spec fn texts_bytes(items: Seq<&str>) -> Seq<Seq<u8>> {
    items.map_values(|s: &str| s.spec_bytes())
}

/// The views of a list of byte buffers.
pub open spec fn buffers_view(bufs: Seq<Vec<u8>>) -> Seq<Seq<u8>> {
    bufs.map_values(|b: Vec<u8>| b@)
}

/// Whether the first text of `items` that holds a nul byte stands at `k`.
pub open spec fn is_first_with_nul(items: Seq<Seq<u8>>, k: int) -> bool {
    &&& 0 <= k < items.len()
    &&& has_nul(items[k])
    &&& forall|j: int| 0 <= j < k ==> !has_nul(items[j])
}

proof fn lemma_first_nul_unique(s: Seq<u8>, i: int)
    requires
        is_first_nul(s, i),
    ensures
        has_nul(s),
        nul_index(s) == i,
{
    let k = choose|k: int| is_first_nul(s, k);
    assert(is_first_nul(s, k));
    if k < i {
        assert(s[k] != 0);
    } else if i < k {
        assert(s[i] != 0);
    }
}

/// The position of the first nul byte of `b`, if it holds one.
pub fn first_nul(b: &[u8]) -> (r: Option<usize>)
    ensures
        r is None <==> !has_nul(b@),
        r matches Some(i) ==> i == nul_index(b@) && is_first_nul(b@, i as int),
{
    let mut i: usize = 0;
    while i < b.len()
        invariant
            i <= b@.len(),
            forall|j: int| 0 <= j < i ==> b@[j] != 0,
        decreases b@.len() - i,
    {
        if b[i] == 0 {
            proof {
                lemma_first_nul_unique(b@, i as int);
            }
            return Some(i);
        }
        i = i + 1;
    }
    None
}

/// Turns text into a nul-terminated buffer for the native library. Text that
/// holds a nul byte would be cut short there, so it is refused, with the
/// position of its first nul byte.
pub fn to_cstring(b: &[u8]) -> (r: Result<Vec<u8>>)
    ensures
        !has_nul(b@) ==> (r matches Ok(v) && v@ == cstring_of(b@)),
        has_nul(b@) ==> r == Err::<Vec<u8>, Error>(Error::NulByte(nul_index(b@) as usize)),
{
    match first_nul(b) {
        Some(i) => Err(Error::NulByte(i)),
        None => {
            let mut v: Vec<u8> = Vec::new();
            let mut k: usize = 0;
            while k < b.len()
                invariant
                    k <= b@.len(),
                    v@ == b@.take(k as int),
                decreases b@.len() - k,
            {
                v.push(b[k]);
                k = k + 1;
                assert(v@ =~= b@.take(k as int));
            }
            assert(v@ =~= b@);
            v.push(0);
            Ok(v)
        },
    }
}

/// Reads the text out of a nul-terminated buffer that the native library
/// handed over: every byte before the first nul, or the whole buffer where
/// it holds none.
pub fn cstr_content(buf: &[u8]) -> (r: Vec<u8>)
    ensures
        r@ == content_of(buf@),
{
    let end = match first_nul(buf) {
        Some(i) => i,
        None => buf.len(),
    };
    let mut v: Vec<u8> = Vec::with_capacity(end);
    let mut k: usize = 0;
    while k < end
        invariant
            end == nul_index(buf@),
            end <= buf@.len(),
            k <= end,
            v@ == buf@.take(k as int),
        decreases end - k,
    {
        v.push(buf[k]);
        k = k + 1;
        assert(v@ =~= buf@.take(k as int));
    }
    v
}

/// Turns a whole list of texts into native buffers, in order. Either every
/// text converts or none is handed over: the first text that holds a nul byte
/// fails the whole list, with the position of that byte.
pub fn to_cstring_list(items: &[&str]) -> (r: Result<Vec<Vec<u8>>>)
    ensures
        (forall|i: int| 0 <= i < items@.len() ==> !has_nul(#[trigger] items@[i].spec_bytes()))
            ==> (r matches Ok(v) && buffers_view(v@) == cstrings_of(texts_bytes(items@))),
        r matches Err(e) ==> exists|k: int|
            is_first_with_nul(texts_bytes(items@), k) && e == Error::NulByte(
                nul_index(items@[k].spec_bytes()) as usize,
            ),
        (exists|i: int| 0 <= i < items@.len() && has_nul(#[trigger] items@[i].spec_bytes()))
            ==> r is Err,
{
    let mut out: Vec<Vec<u8>> = Vec::with_capacity(items.len());
    let mut i: usize = 0;
    while i < items.len()
        invariant
            i <= items@.len(),
            out@.len() == i,
            forall|j: int| 0 <= j < i ==> !has_nul(#[trigger] items@[j].spec_bytes()),
            buffers_view(out@) == cstrings_of(texts_bytes(items@).take(i as int)),
        decreases items@.len() - i,
    {
        let s: &str = items[i];
        match to_cstring(s.as_bytes()) {
            Err(e) => {
                proof {
                    assert(is_first_with_nul(texts_bytes(items@), i as int));
                }
                return Err(e);
            },
            Ok(b) => {
                let ghost prev = out@;
                assert(!has_nul(s.spec_bytes()));
                assert(b@ == cstring_of(s.spec_bytes()));
                let ghost bv = b;
                out.push(b);
                assert(out@ == prev.push(bv));
                i = i + 1;
                assert forall|j: int| 0 <= j < i implies #[trigger] buffers_view(out@)[j]
                    == cstrings_of(texts_bytes(items@).take(i as int))[j] by {
                    if j < i - 1 {
                        assert(out@[j] == prev[j]);
                        assert(buffers_view(prev)[j] == cstrings_of(
                            texts_bytes(items@).take(i - 1),
                        )[j]);
                    } else {
                        assert(out@[j] == bv);
                        assert(texts_bytes(items@).take(i as int)[j] == items@[j].spec_bytes());
                    }
                }
                assert(buffers_view(out@) =~= cstrings_of(texts_bytes(items@).take(i as int)));
            },
        }
    }
    assert(texts_bytes(items@).take(i as int) =~= texts_bytes(items@));
    Ok(out)
}

/// A text without nul bytes comes back unchanged from its native buffer: read
/// up to its terminator, the buffer holds exactly that text.
pub proof fn lemma_cstring_round_trip(s: Seq<u8>)
    requires
        !has_nul(s),
    ensures
        content_of(cstring_of(s)) == s,
{
    let b = cstring_of(s);
    assert(is_first_nul(b, s.len() as int)) by {
        assert forall|j: int| 0 <= j < s.len() implies b[j] != 0 by {
            assert(s[j] != 0);
        }
    }
    lemma_first_nul_unique(b, s.len() as int);
    assert(b.take(s.len() as int) =~= s);
}

/// Setting a list and reading it back is the identity: a list of texts without
/// nul bytes, turned into native buffers and read back buffer by buffer, is the
/// same list, in the same order.
pub proof fn lemma_cstring_list_round_trip(items: Seq<Seq<u8>>)
    requires
        forall|i: int| 0 <= i < items.len() ==> !has_nul(#[trigger] items[i]),
    ensures
        contents_of(cstrings_of(items)) == items,
{
    assert forall|i: int| 0 <= i < items.len() implies #[trigger] contents_of(
        cstrings_of(items),
    )[i] == items[i] by {
        lemma_cstring_round_trip(items[i]);
    }
    assert(contents_of(cstrings_of(items)) =~= items);
}

/// Where a field's value is absent or empty alike, an absent value reads as
/// the empty text.
pub fn optional_or_empty<'a>(raw: Option<&'a str>) -> (r: &'a str)
    ensures
        raw matches Some(s) ==> r@ == s@,
        raw is None ==> r@.len() == 0,
{
    match raw {
        Some(s) => s,
        None => {
            proof {
                reveal_strlit("");
            }
            ""
        },
    }
}

} // verus!
