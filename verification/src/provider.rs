//! The connection provider's endpoint normalization: live subscriptions need
//! a persistent duplex channel, so an HTTP(S) endpoint is rewritten to its
//! WebSocket-scheme equivalent before connecting. The endpoint travels as its
//! bytes; the caller that owns the socket converts to and from text.

use vstd::prelude::*;

verus! {

/// The ASCII bytes of `"http://"`.
pub open spec fn http_prefix() -> Seq<u8> {
    seq![104u8, 116u8, 116u8, 112u8, 58u8, 47u8, 47u8]
}

/// The ASCII bytes of `"https://"`.
pub open spec fn https_prefix() -> Seq<u8> {
    seq![104u8, 116u8, 116u8, 112u8, 115u8, 58u8, 47u8, 47u8]
}

/// The ASCII bytes of `"ws://"`.
pub open spec fn ws_prefix() -> Seq<u8> {
    seq![119u8, 115u8, 58u8, 47u8, 47u8]
}

/// The ASCII bytes of `"wss://"`.
pub open spec fn wss_prefix() -> Seq<u8> {
    seq![119u8, 115u8, 115u8, 58u8, 47u8, 47u8]
}

pub open spec fn starts_with(s: Seq<u8>, p: Seq<u8>) -> bool {
    s.len() >= p.len() && s.subrange(0, p.len() as int) == p
}

/// The WebSocket-scheme equivalent of an endpoint: `http://` becomes `ws://`,
/// `https://` becomes `wss://`, anything else is left unchanged.
pub open spec fn ws_equivalent(url: Seq<u8>) -> Seq<u8> {
    if starts_with(url, http_prefix()) {
        ws_prefix() + url.skip(7)
    } else if starts_with(url, https_prefix()) {
        wss_prefix() + url.skip(8)
    } else {
        url
    }
}

/// Whether `v` begins with the bytes of `p`.
fn has_prefix(v: &Vec<u8>, p: &Vec<u8>) -> (r: bool)
    ensures
        r == starts_with(v@, p@),
{
    if v.len() < p.len() {
        return false;
    }
    let n = p.len();
    let mut k: usize = 0;
    while k < n
        invariant
            n == p@.len(),
            n <= v@.len(),
            k <= n,
            forall|j: int| 0 <= j < k ==> v@[j] == p@[j],
        decreases n - k,
    {
        if v[k] != p[k] {
            assert(v@.subrange(0, n as int)[k as int] != p@[k as int]);
            return false;
        }
        k += 1;
    }
    assert(v@.subrange(0, n as int) =~= p@);
    true
}

/// Appends `url@[from..]` to `out`.
fn push_tail(out: &mut Vec<u8>, url: &Vec<u8>, from: usize)
    requires
        from <= url@.len(),
        old(out)@.len() + (url@.len() - from) <= usize::MAX,
    ensures
        final(out)@ == old(out)@ + url@.skip(from as int),
{
    let n = url.len();
    let mut k: usize = from;
    while k < n
        invariant
            n == url@.len(),
            from <= k <= n,
            out@.len() == old(out)@.len() + (k - from),
            out@ == old(out)@ + url@.subrange(from as int, k as int),
        decreases n - k,
    {
        let ghost prev = out@;
        out.push(url[k]);
        proof {
            assert(out@ =~= old(out)@ + url@.subrange(from as int, k as int + 1));
        }
        k += 1;
    }
    proof {
        assert(out@ =~= old(out)@ + url@.skip(from as int));
    }
}

/// Rewrites an endpoint to its WebSocket-scheme equivalent: `http://` to
/// `ws://`, `https://` to `wss://`, anything else unchanged.
pub fn normalize_endpoint(url: &Vec<u8>) -> (r: Vec<u8>)
    ensures
        r@ == ws_equivalent(url@),
{
    // Pins the endpoint's abstract length to a machine word, so the appends
    // below cannot overflow a vector's length.
    let url_len: usize = url.len();
    proof {
        assert(url@.len() == url_len);
    }
    let mut http: Vec<u8> = Vec::new();
    http.push(104u8);
    http.push(116u8);
    http.push(116u8);
    http.push(112u8);
    let mut https = Vec::new();
    https.push(104u8);
    https.push(116u8);
    https.push(116u8);
    https.push(112u8);
    https.push(115u8);
    let mut http_p = http;
    http_p.push(58u8);
    http_p.push(47u8);
    http_p.push(47u8);
    let mut https_p = https;
    https_p.push(58u8);
    https_p.push(47u8);
    https_p.push(47u8);
    assert(http_p@ =~= http_prefix());
    assert(https_p@ =~= https_prefix());
    if has_prefix(url, &http_p) {
        let mut out: Vec<u8> = Vec::new();
        out.push(119u8);
        out.push(115u8);
        out.push(58u8);
        out.push(47u8);
        out.push(47u8);
        assert(out@ =~= ws_prefix());
        push_tail(&mut out, url, 7);
        out
    } else if has_prefix(url, &https_p) {
        let mut out: Vec<u8> = Vec::new();
        out.push(119u8);
        out.push(115u8);
        out.push(115u8);
        out.push(58u8);
        out.push(47u8);
        out.push(47u8);
        assert(out@ =~= wss_prefix());
        push_tail(&mut out, url, 8);
        out
    } else {
        let mut out: Vec<u8> = Vec::new();
        push_tail(&mut out, url, 0);
        assert(out@ =~= url@);
        out
    }
}

} // verus!
