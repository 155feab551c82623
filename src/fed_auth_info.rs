use vstd::prelude::*;

use crate::error::Error;
use crate::le_bytes::{le_u32, read_u32_le};
use crate::utf16::{from_utf16_range, is_utf16le, utf16le};

verus! {

/// Option id of the security-token-service URL.
pub const FED_AUTH_INFOID_STSURL: u8 = 1;

/// Option id of the service principal name.
pub const FED_AUTH_INFOID_SPN: u8 = 2;

/// Size of one option record: `info_id: u8`, `info_data_len: u32`,
/// `info_data_offset: u32`.
pub const OPTION_SIZE: usize = 9;

/// Largest `token_length` accepted from a peer.
pub const MAX_FED_AUTH_INFO_LEN: u32 = 1048576;

/// The message's `token_length`: the byte count after that field.
pub open spec fn token_len(msg: Seq<u8>) -> int {
    le_u32(msg, 0) as int
}

/// The message's `option_count`.
pub open spec fn option_count(msg: Seq<u8>) -> int {
    le_u32(msg, 4) as int
}

/// Where option record `k` starts in the message: the records follow
/// `option_count`.
pub open spec fn record_at(k: int) -> int {
    8 + OPTION_SIZE * k
}

pub open spec fn option_id(msg: Seq<u8>, k: int) -> u8 {
    msg[record_at(k)]
}

pub open spec fn option_len(msg: Seq<u8>, k: int) -> int {
    le_u32(msg, record_at(k) + 1) as int
}

/// The raw offset of option `k`, counted from the start of `option_count`.
pub open spec fn option_offset(msg: Seq<u8>, k: int) -> int {
    le_u32(msg, record_at(k) + 5) as int
}

/// The data of option `k` lies within the `token_length - 4` bytes that
/// follow `option_count`.
pub open spec fn option_in_bounds(msg: Seq<u8>, k: int) -> bool {
    &&& option_offset(msg, k) >= 4
    &&& option_offset(msg, k) - 4 + option_len(msg, k) <= token_len(msg) - 4
}

/// The data of option `k`: the offset is counted from `option_count`, which
/// starts at message byte 4.
pub open spec fn option_data(msg: Seq<u8>, k: int) -> Seq<u8> {
    msg.subrange(option_offset(msg, k) + 4, option_offset(msg, k) + 4 + option_len(msg, k))
}

/// The message is complete, its lengths fit within its bounds, and every
/// option's data lies within the message.
pub open spec fn table_ok(msg: Seq<u8>) -> bool {
    &&& msg.len() >= 4
    &&& 4 <= token_len(msg) <= MAX_FED_AUTH_INFO_LEN
    &&& msg.len() >= 4 + token_len(msg)
    &&& OPTION_SIZE * option_count(msg) <= token_len(msg) - 4
    &&& forall|k: int| 0 <= k < option_count(msg) ==> option_in_bounds(msg, k)
}

/// The last of the first `n` options with id `id`.
pub open spec fn last_with_id(msg: Seq<u8>, n: int, id: u8) -> Option<int>
    decreases n,
{
    if n <= 0 {
        None
    } else if option_id(msg, n - 1) == id {
        Some(n - 1)
    } else {
        last_with_id(msg, n - 1, id)
    }
}

/// The option that gives the STS URL (the last with its id).
pub open spec fn sts_option(msg: Seq<u8>) -> Option<int> {
    last_with_id(msg, option_count(msg), FED_AUTH_INFOID_STSURL)
}

/// The option that gives the SPN (the last with its id).
pub open spec fn spn_option(msg: Seq<u8>) -> Option<int> {
    last_with_id(msg, option_count(msg), FED_AUTH_INFOID_SPN)
}

/// The message is well formed and names both an STS URL and an SPN.
pub open spec fn structure_ok(msg: Seq<u8>) -> bool {
    table_ok(msg) && sts_option(msg) is Some && spn_option(msg) is Some
}

/// Both texts are valid UTF-16LE.
pub open spec fn texts_ok(msg: Seq<u8>) -> bool {
    &&& is_utf16le(option_data(msg, sts_option(msg)->0))
    &&& is_utf16le(option_data(msg, spn_option(msg)->0))
}

/// A message that names no STS URL, or no SPN, is rejected.
pub proof fn lemma_missing_option_rejected(msg: Seq<u8>)
    requires
        sts_option(msg) is None || spn_option(msg) is None,
    ensures
        !structure_ok(msg),
{
}

/// A message with an option whose data lies outside the message is rejected.
pub proof fn lemma_out_of_bounds_rejected(msg: Seq<u8>, k: int)
    requires
        0 <= k < option_count(msg),
        !option_in_bounds(msg, k),
    ensures
        !structure_ok(msg),
{
}

/// A message shorter than its declared `token_length` is rejected.
pub proof fn lemma_truncated_rejected(msg: Seq<u8>)
    requires
        msg.len() < 4 || msg.len() < 4 + token_len(msg),
    ensures
        !structure_ok(msg),
{
}

/// Federated authentication information announced by the server.
pub struct TokenFedAuthInfo {
    sts_url: String,
    spn: String,
}

impl TokenFedAuthInfo {
    pub closed spec fn sts_url_spec(&self) -> Seq<char> {
        self.sts_url@
    }

    pub closed spec fn spn_spec(&self) -> Seq<char> {
        self.spn@
    }

    /// The security-token-service URL.
    pub fn sts_url(&self) -> (r: &str)
        ensures
            r@ == self.sts_url_spec(),
    {
        self.sts_url.as_str()
    }

    /// The service principal name.
    pub fn spn(&self) -> (r: &str)
        ensures
            r@ == self.spn_spec(),
    {
        self.spn.as_str()
    }

    /// The number of bytes that follow a message's `token_length` field, or a
    /// protocol error when `token_length` is below 4 (it counts
    /// `option_count`) or above the accepted maximum. A reader checks it
    /// before it allocates room for the message.
    pub fn body_len(token_length: u32) -> (r: Result<usize, Error>)
        ensures
            match r {
                Ok(n) => 4 <= token_length <= MAX_FED_AUTH_INFO_LEN && n == token_length,
                Err(e) => e is Protocol && !(4 <= token_length <= MAX_FED_AUTH_INFO_LEN),
            },
    {
        if token_length < 4 || token_length > MAX_FED_AUTH_INFO_LEN {
            return Err(Error::Protocol(String::from_str("FedAuthInfo: bad token length")));
        }
        Ok(token_length as usize)
    }

    /// Decodes a federated-auth-info message that starts at its
    /// `token_length` field. Bytes after the message are ignored. When an id
    /// occurs more than once, the last occurrence wins; unknown ids are
    /// skipped.
    pub fn decode(msg: &[u8]) -> (r: Result<TokenFedAuthInfo, Error>)
        ensures
            match r {
                Ok(info) => {
                    &&& structure_ok(msg@)
                    &&& utf16le(info.sts_url_spec()) == option_data(msg@, sts_option(msg@)->0)
                    &&& utf16le(info.spn_spec()) == option_data(msg@, spn_option(msg@)->0)
                },
                Err(Error::Protocol(_)) => !structure_ok(msg@),
                Err(Error::Utf16) => structure_ok(msg@) && !texts_ok(msg@),
            },
    {
        if msg.len() < 4 {
            return Err(Error::Protocol(String::from_str("FedAuthInfo: message too short")));
        }
        let token_length = read_u32_le(msg, 0);
        let tl = match Self::body_len(token_length) {
            Ok(n) => n,
            Err(e) => return Err(e),
        };
        if msg.len() - 4 < tl {
            return Err(Error::Protocol(String::from_str("FedAuthInfo: message truncated")));
        }
        let buf_len = tl - 4;
        let count32 = read_u32_le(msg, 4);
        if count32 as usize > buf_len / OPTION_SIZE {
            return Err(Error::Protocol(String::from_str("FedAuthInfo: option table too large")));
        }
        let count = count32 as usize;
        assert(OPTION_SIZE * count <= buf_len);
        let mut sts: Option<(usize, usize)> = None;
        let mut spn: Option<(usize, usize)> = None;
        let mut k: usize = 0;
        while k < count
            invariant
                4 <= tl <= MAX_FED_AUTH_INFO_LEN,
                tl == token_len(msg@),
                4 + tl <= msg@.len(),
                buf_len == tl - 4,
                count == option_count(msg@),
                OPTION_SIZE * count <= buf_len,
                k <= count,
                forall|j: int| 0 <= j < k ==> option_in_bounds(msg@, j),
                match last_with_id(msg@, k as int, FED_AUTH_INFOID_STSURL) {
                    Some(j) => sts == Some(
                        ((option_offset(msg@, j) + 4) as usize, (option_offset(msg@, j) + 4 + option_len(msg@, j)) as usize),
                    ) && 0 <= j < k && option_in_bounds(msg@, j),
                    None => sts is None,
                },
                match last_with_id(msg@, k as int, FED_AUTH_INFOID_SPN) {
                    Some(j) => spn == Some(
                        ((option_offset(msg@, j) + 4) as usize, (option_offset(msg@, j) + 4 + option_len(msg@, j)) as usize),
                    ) && 0 <= j < k && option_in_bounds(msg@, j),
                    None => spn is None,
                },
            decreases count - k,
        {
            assert(OPTION_SIZE * k + OPTION_SIZE <= OPTION_SIZE * count) by (nonlinear_arith)
                requires
                    k < count,
            ;
            let at = 8 + OPTION_SIZE * k;
            let id = msg[at];
            let len = read_u32_le(msg, at + 1);
            let offset = read_u32_le(msg, at + 5);
            if offset < 4 || (offset - 4) as usize > buf_len || len as usize > buf_len - (offset - 4) as usize {
                assert(!option_in_bounds(msg@, k as int));
                return Err(Error::Protocol(String::from_str("FedAuthInfo: option data out of bounds")));
            }
            let start = offset as usize + 4;
            let end = start + len as usize;
            if id == FED_AUTH_INFOID_STSURL {
                sts = Some((start, end));
            } else if id == FED_AUTH_INFOID_SPN {
                spn = Some((start, end));
            }
            k = k + 1;
        }
        assert(table_ok(msg@));
        match (sts, spn) {
            (Some((s0, s1)), Some((p0, p1))) => {
                assert(msg@.subrange(s0 as int, s1 as int) == option_data(msg@, sts_option(msg@)->0));
                assert(msg@.subrange(p0 as int, p1 as int) == option_data(msg@, spn_option(msg@)->0));
                let sts_url = match from_utf16_range(msg, s0, s1) {
                    Ok(t) => t,
                    Err(_) => return Err(Error::Utf16),
                };
                let spn = match from_utf16_range(msg, p0, p1) {
                    Ok(t) => t,
                    Err(_) => return Err(Error::Utf16),
                };
                Ok(TokenFedAuthInfo { sts_url, spn })
            },
            _ => Err(Error::Protocol(String::from_str("Failed to read FedAuthInfo"))),
        }
    }
}

} // verus!
