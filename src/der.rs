//! Just enough DER to find a certificate's own public key: the
//! SubjectPublicKeyInfo element of its TBSCertificate.
use vstd::prelude::*;

verus! {

/// The content of the DER element whose tag is at `pos`, as a half-open
/// range of offsets; `None` where the header is cut short, the content runs
/// past the end, or the length takes more than two bytes.
pub open spec fn header_at(s: Seq<u8>, pos: int) -> Option<(int, int)> {
    if pos < 0 || pos + 2 > s.len() {
        None
    } else {
        let b = s[pos + 1];
        if b < 0x80 {
            if pos + 2 + b <= s.len() {
                Some((pos + 2, pos + 2 + b))
            } else {
                None
            }
        } else if b == 0x81 {
            if pos + 3 > s.len() {
                None
            } else if pos + 3 + s[pos + 2] <= s.len() {
                Some((pos + 3, pos + 3 + s[pos + 2]))
            } else {
                None
            }
        } else if b == 0x82 {
            if pos + 4 > s.len() {
                None
            } else {
                let n = s[pos + 2] * 256 + s[pos + 3];
                if pos + 4 + n <= s.len() {
                    Some((pos + 4, pos + 4 + n))
                } else {
                    None
                }
            }
        } else {
            None
        }
    }
}

/// Where the element after `n` consecutive elements from `pos` starts.
pub open spec fn skip(s: Seq<u8>, pos: int, n: nat) -> Option<int>
    decreases n,
{
    if n == 0 {
        Some(pos)
    } else {
        match header_at(s, pos) {
            Some((_, e)) => skip(s, e, (n - 1) as nat),
            None => None,
        }
    }
}

/// Where the serial number starts: after the explicit version, if any.
pub open spec fn after_version(s: Seq<u8>, pos: int) -> Option<int> {
    if 0 <= pos < s.len() && s[pos] == 0xA0 {
        match header_at(s, pos) {
            Some((_, e)) => Some(e),
            None => None,
        }
    } else {
        Some(pos)
    }
}

/// Whether a SEQUENCE starts at `pos`.
pub open spec fn sequence_at(s: Seq<u8>, pos: int) -> bool {
    0 <= pos < s.len() && s[pos] == 0x30
}

/// The offsets of the whole SubjectPublicKeyInfo element of a certificate:
/// inside Certificate and TBSCertificate, after the optional version and
/// the serial number, signature algorithm, issuer, validity and subject.
pub open spec fn public_key_range(cert: Seq<u8>) -> Option<(int, int)> {
    if !sequence_at(cert, 0) {
        None
    } else {
        match header_at(cert, 0) {
            None => None,
            Some((cs, _)) => if !sequence_at(cert, cs) {
                None
            } else {
                match header_at(cert, cs) {
                    None => None,
                    Some((tcs, _)) => match after_version(cert, tcs) {
                        None => None,
                        Some(p) => match skip(cert, p, 5) {
                            None => None,
                            Some(q) => if !sequence_at(cert, q) {
                                None
                            } else {
                                match header_at(cert, q) {
                                    None => None,
                                    Some((_, e)) => Some((q, e)),
                                }
                            },
                        },
                    },
                }
            },
        }
    }
}

/// The certificate's SubjectPublicKeyInfo (DER), where it can be found.
pub open spec fn certificate_public_key(cert: Seq<u8>) -> Option<Seq<u8>> {
    match public_key_range(cert) {
        Some((q, e)) => Some(cert.subrange(q, e)),
        None => None,
    }
}

pub open spec fn as_ints(r: Option<(usize, usize)>) -> Option<(int, int)> {
    match r {
        Some((a, b)) => Some((a as int, b as int)),
        None => None,
    }
}

proof fn header_bounds(s: Seq<u8>, pos: int)
    ensures
        header_at(s, pos) matches Some((c, e)) ==> pos + 2 <= c <= e <= s.len(),
{
}

fn header_exec(s: &Vec<u8>, pos: usize) -> (r: Option<(usize, usize)>)
    ensures
        as_ints(r) == header_at(s@, pos as int),
{
    let len = s.len();
    if pos > len || len - pos < 2 {
        return None;
    }
    let b = s[pos + 1];
    if b < 0x80 {
        let n = b as usize;
        if len - (pos + 2) >= n {
            Some((pos + 2, pos + 2 + n))
        } else {
            None
        }
    } else if b == 0x81 {
        if len - pos < 3 {
            return None;
        }
        let n = s[pos + 2] as usize;
        if len - (pos + 3) >= n {
            Some((pos + 3, pos + 3 + n))
        } else {
            None
        }
    } else if b == 0x82 {
        if len - pos < 4 {
            return None;
        }
        let n = (s[pos + 2] as usize) * 256 + (s[pos + 3] as usize);
        if len - (pos + 4) >= n {
            Some((pos + 4, pos + 4 + n))
        } else {
            None
        }
    } else {
        None
    }
}

fn skip_exec(s: &Vec<u8>, pos: usize, n: usize) -> (r: Option<usize>)
    requires
        pos <= s@.len(),
    ensures
        match skip(s@, pos as int, n as nat) {
            Some(q) => r == Some(q as usize) && 0 <= q <= s@.len(),
            None => r is None,
        },
    decreases n,
{
    if n == 0 {
        return Some(pos);
    }
    match header_exec(s, pos) {
        Some((_, e)) => {
            proof {
                header_bounds(s@, pos as int);
            }
            skip_exec(s, e, n - 1)
        },
        None => None,
    }
}

/// Finds the certificate's SubjectPublicKeyInfo element.
pub fn public_key_range_exec(cert: &Vec<u8>) -> (r: Option<(usize, usize)>)
    ensures
        as_ints(r) == public_key_range(cert@),
        r matches Some((q, e)) ==> q <= e <= cert@.len(),
{
    if cert.len() == 0 || cert[0] != 0x30 {
        return None;
    }
    let (cs, _) = match header_exec(cert, 0) {
        Some(h) => h,
        None => return None,
    };
    proof {
        header_bounds(cert@, 0);
    }
    if cs >= cert.len() || cert[cs] != 0x30 {
        return None;
    }
    let (tcs, _) = match header_exec(cert, cs) {
        Some(h) => h,
        None => return None,
    };
    proof {
        header_bounds(cert@, cs as int);
    }
    let p = if tcs < cert.len() && cert[tcs] == 0xA0 {
        match header_exec(cert, tcs) {
            Some((_, e)) => {
                proof {
                    header_bounds(cert@, tcs as int);
                }
                e
            },
            None => return None,
        }
    } else {
        tcs
    };
    assert(after_version(cert@, tcs as int) == Some(p as int));
    let q = match skip_exec(cert, p, 5) {
        Some(q) => q,
        None => return None,
    };
    if q >= cert.len() || cert[q] != 0x30 {
        return None;
    }
    match header_exec(cert, q) {
        Some((_, e)) => {
            proof {
                header_bounds(cert@, q as int);
            }
            Some((q, e))
        },
        None => None,
    }
}

} // verus!
