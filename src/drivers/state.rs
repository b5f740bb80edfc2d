//! Connection records: the remote host, TCP port and remote bus ID behind
//! each occupied port. The kernel keeps only a device ID and a socket per
//! port, so this identity is kept beside it, one small text per port of the
//! form `host port bus_id` followed by a line feed.
use vstd::prelude::*;
use vstd::utf8::*;

use crate::text::{
    decimal, is_blank, lemma_decimal_reads_back, number_of, parse_number, push_all, push_decimal,
    split_tokens, string_from_utf8, to_vec, tokens, tokens_fold,
};

verus! {

/// Failures of the connection record store.
#[derive(Debug, Clone, PartialEq, Eq)]
pub enum FsStateError {
    /// Writing the record failed.
    IoWrite(String),
    /// The state path exists but is not a directory.
    NotADirectory,
    /// No record exists for the port.
    NotFound(u16),
    /// Reading the record of the port failed.
    IoRead(String, u16),
    /// The record of the port does not follow the grammar.
    Parsing(u16),
    /// Removing the record failed.
    IoRemove(String),
}

/// The connection parameters used when a device was attached.
#[derive(Debug, PartialEq, Eq)]
pub struct ConnectionRecord {
    /// Host of the USB/IP server.
    pub host: String,
    /// TCP port of the USB/IP server.
    pub port: u16,
    /// Bus ID of the device on the server.
    pub bus_id: String,
}

impl Clone for ConnectionRecord {
    fn clone(&self) -> (r: Self)
        ensures
            r == *self,
    {
        ConnectionRecord { host: self.host.clone(), port: self.port, bus_id: self.bus_id.clone() }
    }
}

/// The stored text of a record.
pub open spec fn record_bytes(host: Seq<char>, port: u16, bus_id: Seq<char>) -> Seq<u8> {
    encode_utf8(host) + seq![0x20u8] + decimal(port as nat) + seq![0x20u8] + encode_utf8(bus_id)
        + seq![0x0au8]
}

/// Whether a stored text follows the grammar: three tokens, the middle one a
/// TCP port, the outer ones UTF-8.
pub open spec fn record_parses(content: Seq<u8>) -> bool {
    let t = tokens(content);
    &&& t.len() == 3
    &&& valid_utf8(t[0])
    &&& number_of(t[1], false, u16::MAX as nat) is Some
    &&& valid_utf8(t[2])
}

/// Whether `r` is the record that `content` holds.
pub open spec fn record_read(content: Seq<u8>, r: ConnectionRecord) -> bool {
    let t = tokens(content);
    &&& record_parses(content)
    &&& r.host@ == decode_utf8(t[0])
    &&& r.port as nat == number_of(t[1], false, u16::MAX as nat)->0
    &&& r.bus_id@ == decode_utf8(t[2])
}

/// A text that the record grammar can carry as one token: not empty, and
/// no blank byte in its encoding.
pub open spec fn is_record_token(s: Seq<char>) -> bool {
    &&& s.len() > 0
    &&& forall|i: int| 0 <= i < encode_utf8(s).len() ==> !is_blank(#[trigger] encode_utf8(s)[i])
}

impl ConnectionRecord {
    /// The text stored for this record.
    pub fn to_bytes(&self) -> (r: Vec<u8>)
        ensures
            r@ == record_bytes(self.host@, self.port, self.bus_id@),
    {
        let mut out: Vec<u8> = Vec::new();
        push_all(&mut out, self.host.as_str().as_bytes());
        out.push(0x20);
        push_decimal(&mut out, self.port as u64);
        out.push(0x20);
        push_all(&mut out, self.bus_id.as_str().as_bytes());
        out.push(0x0a);
        assert(out@ =~= record_bytes(self.host@, self.port, self.bus_id@));
        out
    }

    /// Reads the stored text of the record of `rh_port`. Blanks around and
    /// between the three fields are not significant.
    pub fn parse(rh_port: u16, content: &[u8]) -> (r: Result<Self, FsStateError>)
        ensures
            r is Ok <==> record_parses(content@),
            r matches Ok(rec) ==> record_read(content@, rec),
            r is Err ==> r == Err::<Self, FsStateError>(FsStateError::Parsing(rh_port)),
    {
        let t = split_tokens(content);
        if t.len() != 3 {
            return Err(FsStateError::Parsing(rh_port));
        }
        assert(t@[0]@ == tokens(content@)[0]);
        assert(t@[1]@ == tokens(content@)[1]);
        assert(t@[2]@ == tokens(content@)[2]);
        let port = match parse_number(t[1].as_slice(), false, 0xffff) {
            Some(p) => p as u16,
            None => return Err(FsStateError::Parsing(rh_port)),
        };
        let host = match string_from_utf8(to_vec(t[0].as_slice())) {
            Some(h) => h,
            None => return Err(FsStateError::Parsing(rh_port)),
        };
        let bus_id = match string_from_utf8(to_vec(t[2].as_slice())) {
            Some(b) => b,
            None => return Err(FsStateError::Parsing(rh_port)),
        };
        Ok(ConnectionRecord { host, port, bus_id })
    }
}

proof fn lemma_fold_word(p: Seq<u8>, w: Seq<u8>)
    requires
        forall|i: int| 0 <= i < w.len() ==> !is_blank(#[trigger] w[i]),
    ensures
        tokens_fold(p + w) == (tokens_fold(p).0, tokens_fold(p).1 + w),
    decreases w.len(),
{
    if w.len() == 0 {
        assert(p + w =~= p);
        assert(tokens_fold(p).1 + w =~= tokens_fold(p).1);
    } else {
        let w1 = w.drop_last();
        lemma_fold_word(p, w1);
        assert((p + w).drop_last() =~= p + w1);
        assert(!is_blank(w[w.len() - 1]));
        assert((tokens_fold(p).1 + w1).push(w.last()) =~= tokens_fold(p).1 + w);
    }
}

proof fn lemma_fold_blank(p: Seq<u8>, b: u8)
    requires
        is_blank(b),
    ensures
        tokens_fold(p.push(b)) == (if tokens_fold(p).1.len() > 0 {
            (tokens_fold(p).0.push(tokens_fold(p).1), Seq::<u8>::empty())
        } else {
            (tokens_fold(p).0, Seq::<u8>::empty())
        }),
{
    assert(p.push(b).drop_last() =~= p);
}

/// A record whose host and bus ID are record tokens reads back, from its
/// stored text, as the same host, TCP port and bus ID.
pub proof fn lemma_record_round_trip(host: Seq<char>, port: u16, bus_id: Seq<char>)
    requires
        is_record_token(host),
        is_record_token(bus_id),
    ensures
        record_parses(record_bytes(host, port, bus_id)),
        tokens(record_bytes(host, port, bus_id)) == seq![
            encode_utf8(host),
            decimal(port as nat),
            encode_utf8(bus_id),
        ],
        decode_utf8(tokens(record_bytes(host, port, bus_id))[0]) == host,
        number_of(tokens(record_bytes(host, port, bus_id))[1], false, u16::MAX as nat) == Some(
            port as nat,
        ),
        decode_utf8(tokens(record_bytes(host, port, bus_id))[2]) == bus_id,
{
    let h = encode_utf8(host);
    let d = decimal(port as nat);
    let b = encode_utf8(bus_id);
    broadcast use encode_utf8_valid_utf8, encode_utf8_decode_utf8;

    lemma_decimal_reads_back(port as nat);
    // an empty encoding would decode to no characters
    assert(h.len() > 0) by {
        if h.len() == 0 {
            assert(decode_utf8(h) =~= Seq::<char>::empty());
        }
    }
    assert(b.len() > 0) by {
        if b.len() == 0 {
            assert(decode_utf8(b) =~= Seq::<char>::empty());
        }
    }
    assert forall|i: int| 0 <= i < d.len() implies !is_blank(#[trigger] d[i]) by {
        assert(crate::text::is_digit(d[i], false));
    }
    let e = Seq::<u8>::empty();
    let sp = 0x20u8;
    let nl = 0x0au8;
    assert(tokens_fold(e) == (Seq::<Seq<u8>>::empty(), Seq::<u8>::empty()));
    lemma_fold_word(e, h);
    assert(e + h =~= h);
    lemma_fold_blank(h, sp);
    let p1 = h.push(sp);
    lemma_fold_word(p1, d);
    let p2 = (p1 + d).push(sp);
    lemma_fold_blank(p1 + d, sp);
    lemma_fold_word(p2, b);
    lemma_fold_blank(p2 + b, nl);
    let all = (p2 + b).push(nl);
    assert(all =~= record_bytes(host, port, bus_id));
    assert(Seq::<u8>::empty() + d =~= d);
    assert(Seq::<u8>::empty() + b =~= b);
    assert(tokens(all) =~= seq![h, d, b]);
}

} // verus!
