//! Protocol object identifiers.
//!
//! Each identifier is a validated ASCII token with a canonical textual
//! encoding that is used verbatim as a wire argument.  Identifiers are
//! immutable value types; equality is structural.  The character set and the
//! per-kind length bounds follow the host-identifier conventions of the IBC
//! protocol: a token is built from alphanumerics and `.`, `_`, `+`, `-`,
//! `#`, `[`, `]`, `<`, `>`.

use vstd::prelude::*;

use crate::errors::QueryError;

verus! {

/// Whether one byte may appear in an identifier token.
pub open spec fn valid_id_byte(b: u8) -> bool {
    (0x61u8 <= b && b <= 0x7au8) || (0x41u8 <= b && b <= 0x5au8) || (0x30u8 <= b && b <= 0x39u8)
        || b == 0x2eu8 || b == 0x5fu8 || b == 0x2bu8 || b == 0x2du8 || b == 0x23u8
        || b == 0x5bu8 || b == 0x5du8 || b == 0x3cu8 || b == 0x3eu8
}

/// Whether every byte of `s` may appear in an identifier token.
pub open spec fn valid_id_bytes(s: Seq<u8>) -> bool {
    forall|i: int| 0 <= i < s.len() ==> valid_id_byte(s[i])
}

/// A well-formed client identifier: 9 to 64 identifier bytes.
pub open spec fn valid_client_id(s: Seq<u8>) -> bool {
    9 <= s.len() <= 64 && valid_id_bytes(s)
}

/// A well-formed connection identifier: 10 to 64 identifier bytes.
pub open spec fn valid_connection_id(s: Seq<u8>) -> bool {
    10 <= s.len() <= 64 && valid_id_bytes(s)
}

/// A well-formed channel identifier: 8 to 64 identifier bytes.
pub open spec fn valid_channel_id(s: Seq<u8>) -> bool {
    8 <= s.len() <= 64 && valid_id_bytes(s)
}

/// A well-formed port identifier: 2 to 128 identifier bytes.
pub open spec fn valid_port_id(s: Seq<u8>) -> bool {
    2 <= s.len() <= 128 && valid_id_bytes(s)
}

/// Checks every byte of `text` against the identifier character set.
fn check_id_bytes(text: &Vec<u8>) -> (r: bool)
    ensures
        r == valid_id_bytes(text@),
{
    let mut i: usize = 0;
    while i < text.len()
        invariant
            0 <= i <= text@.len(),
            forall|j: int| 0 <= j < i ==> valid_id_byte(text@[j]),
        decreases text@.len() - i,
    {
        let b = text[i];
        let ok = (0x61u8 <= b && b <= 0x7au8) || (0x41u8 <= b && b <= 0x5au8)
            || (0x30u8 <= b && b <= 0x39u8)
            || b == 0x2eu8 || b == 0x5fu8 || b == 0x2bu8 || b == 0x2du8 || b == 0x23u8
            || b == 0x5bu8 || b == 0x5du8 || b == 0x3cu8 || b == 0x3eu8;
        if !ok {
            return false;
        }
        i = i + 1;
    }
    true
}

/// A validated client identifier.
#[derive(Clone, Debug, PartialEq, Eq, Hash)]
pub struct ClientId {
    text: Vec<u8>,
}

impl View for ClientId {
    type V = Seq<u8>;

    closed spec fn view(&self) -> Seq<u8> {
        self.text@
    }
}

impl ClientId {
    /// The identifier is a valid client token.
    pub open spec fn wf(&self) -> bool {
        valid_client_id(self@)
    }

    /// Validates `text` as a client identifier and takes ownership of it.
    /// Succeeds exactly on well-formed tokens; the token is kept verbatim.
    pub fn parse(text: Vec<u8>) -> (r: Result<ClientId, QueryError>)
        ensures
            r is Ok <==> valid_client_id(text@),
            r matches Ok(c) ==> c@ == text@ && c.wf(),
            r matches Err(e) ==> e == QueryError::DecodeError,
    {
        if 9 <= text.len() && text.len() <= 64 && check_id_bytes(&text) {
            Ok(ClientId { text })
        } else {
            Err(QueryError::DecodeError)
        }
    }

    /// The canonical textual encoding, byte for byte as the wire expects it.
    pub fn encoded(&self) -> (r: &Vec<u8>)
        ensures
            r@ == self@,
    {
        &self.text
    }

    /// An owned copy of the identifier, same token byte for byte.
    pub fn duplicate(&self) -> (r: Self)
        ensures
            r@ == self@,
    {
        let text = self.text.clone();
        proof {
            assert(text@ =~= self.text@);
        }
        Self { text }
    }
}

/// A validated port identifier.
#[derive(Clone, Debug, PartialEq, Eq, Hash)]
pub struct PortId {
    text: Vec<u8>,
}

impl View for PortId {
    type V = Seq<u8>;

    closed spec fn view(&self) -> Seq<u8> {
        self.text@
    }
}

impl PortId {
    /// The identifier is a valid port token.
    pub open spec fn wf(&self) -> bool {
        valid_port_id(self@)
    }

    /// Validates `text` as a port identifier and takes ownership of it.
    pub fn parse(text: Vec<u8>) -> (r: Result<PortId, QueryError>)
        ensures
            r is Ok <==> valid_port_id(text@),
            r matches Ok(p) ==> p@ == text@ && p.wf(),
            r matches Err(e) ==> e == QueryError::DecodeError,
    {
        if 2 <= text.len() && text.len() <= 128 && check_id_bytes(&text) {
            Ok(PortId { text })
        } else {
            Err(QueryError::DecodeError)
        }
    }

    /// The canonical textual encoding.
    pub fn encoded(&self) -> (r: &Vec<u8>)
        ensures
            r@ == self@,
    {
        &self.text
    }

    /// An owned copy of the identifier, same token byte for byte.
    pub fn duplicate(&self) -> (r: Self)
        ensures
            r@ == self@,
    {
        let text = self.text.clone();
        proof {
            assert(text@ =~= self.text@);
        }
        Self { text }
    }
}

/// The shortest base-ten digit string of `n` (most significant digit first).
pub open spec fn dec_rep(n: int) -> Seq<u8>
    decreases n,
{
    if n < 10 {
        seq![(0x30 + n) as u8]
    } else {
        dec_rep(n / 10).push((0x30 + n % 10) as u8)
    }
}

/// Ten to the `k`.
pub open spec fn pow10(k: nat) -> int
    decreases k,
{
    if k == 0 {
        1
    } else {
        10 * pow10((k - 1) as nat)
    }
}

/// Every byte of a digit string is an ASCII digit, hence a valid
/// identifier byte, and there is at least one of them.
pub proof fn lemma_dec_rep_bytes(n: int)
    requires
        0 <= n,
    ensures
        dec_rep(n).len() >= 1,
        forall|i: int| 0 <= i < dec_rep(n).len() ==> valid_id_byte(#[trigger] dec_rep(n)[i]),
    decreases n,
{
    if n >= 10 {
        lemma_dec_rep_bytes(n / 10);
    }
}

/// A number below ten to the `k` needs at most `k` digits.
pub proof fn lemma_dec_rep_len(n: int, k: nat)
    requires
        0 <= n < pow10(k),
        1 <= k,
    ensures
        dec_rep(n).len() <= k,
    decreases k,
{
    if n >= 10 {
        assert(pow10(k) == 10 * pow10((k - 1) as nat));
        assert(n / 10 < pow10((k - 1) as nat)) by (nonlinear_arith)
            requires
                n < 10 * pow10((k - 1) as nat),
                0 <= n,
        ;
        lemma_dec_rep_len(n / 10, (k - 1) as nat);
    }
}

/// Any 64-bit number fits in twenty digits.
pub proof fn lemma_dec_rep_len_u64(n: u64)
    ensures
        1 <= dec_rep(n as int).len() <= 20,
{
    reveal_with_fuel(pow10, 21);
    assert(pow10(20) == 0x56bc75e2d63100000);
    lemma_dec_rep_len(n as int, 20);
    lemma_dec_rep_bytes(n as int);
}

/// Formats `n` in base ten, most significant digit first.
pub fn u64_to_dec(n: u64) -> (r: Vec<u8>)
    ensures
        r@ == dec_rep(n as int),
    decreases n,
{
    if n < 10 {
        let mut v: Vec<u8> = Vec::new();
        v.push(0x30u8 + (n as u8));
        proof {
            assert(v@ =~= dec_rep(n as int));
        }
        v
    } else {
        let mut v = u64_to_dec(n / 10);
        v.push(0x30u8 + ((n % 10) as u8));
        proof {
            assert(v@ =~= dec_rep(n as int));
        }
        v
    }
}

/// The canonical prefix of a numbered connection identifier: `connection-`.
pub open spec fn connection_prefix() -> Seq<u8> {
    seq![0x63u8, 0x6fu8, 0x6eu8, 0x6eu8, 0x65u8, 0x63u8, 0x74u8, 0x69u8, 0x6fu8, 0x6eu8, 0x2du8]
}

/// The canonical prefix of a numbered channel identifier: `channel-`.
pub open spec fn channel_prefix() -> Seq<u8> {
    seq![0x63u8, 0x68u8, 0x61u8, 0x6eu8, 0x6eu8, 0x65u8, 0x6cu8, 0x2du8]
}

/// A validated connection identifier.
#[derive(Clone, Debug, PartialEq, Eq, Hash)]
pub struct ConnectionId {
    text: Vec<u8>,
}

impl View for ConnectionId {
    type V = Seq<u8>;

    closed spec fn view(&self) -> Seq<u8> {
        self.text@
    }
}

impl ConnectionId {
    /// The identifier is a valid connection token.
    pub open spec fn wf(&self) -> bool {
        valid_connection_id(self@)
    }

    /// Validates `text` as a connection identifier and takes ownership of it.
    pub fn parse(text: Vec<u8>) -> (r: Result<ConnectionId, QueryError>)
        ensures
            r is Ok <==> valid_connection_id(text@),
            r matches Ok(c) ==> c@ == text@ && c.wf(),
            r matches Err(e) ==> e == QueryError::DecodeError,
    {
        if 10 <= text.len() && text.len() <= 64 && check_id_bytes(&text) {
            Ok(ConnectionId { text })
        } else {
            Err(QueryError::DecodeError)
        }
    }

    /// The `n`th connection in the node's numbering: `connection-` followed
    /// by `n` in base ten.
    pub fn from_index(n: u64) -> (r: ConnectionId)
        ensures
            r@ == connection_prefix() + dec_rep(n as int),
            r.wf(),
    {
        let mut text: Vec<u8> = Vec::new();
        text.push(0x63u8);
        text.push(0x6fu8);
        text.push(0x6eu8);
        text.push(0x6eu8);
        text.push(0x65u8);
        text.push(0x63u8);
        text.push(0x74u8);
        text.push(0x69u8);
        text.push(0x6fu8);
        text.push(0x6eu8);
        text.push(0x2du8);
        proof {
            assert(text@ =~= connection_prefix());
        }
        let mut digits = u64_to_dec(n);
        text.append(&mut digits);
        proof {
            lemma_dec_rep_len_u64(n);
            lemma_dec_rep_bytes(n as int);
            assert forall|i: int| 0 <= i < text@.len() implies valid_id_byte(text@[i]) by {
                if i >= connection_prefix().len() {
                    assert(text@[i] == dec_rep(n as int)[i - connection_prefix().len()]);
                }
            }
        }
        ConnectionId { text }
    }

    /// The canonical textual encoding.
    pub fn encoded(&self) -> (r: &Vec<u8>)
        ensures
            r@ == self@,
    {
        &self.text
    }

    /// An owned copy of the identifier, same token byte for byte.
    pub fn duplicate(&self) -> (r: Self)
        ensures
            r@ == self@,
    {
        let text = self.text.clone();
        proof {
            assert(text@ =~= self.text@);
        }
        Self { text }
    }
}

/// A validated channel identifier.
#[derive(Clone, Debug, PartialEq, Eq, Hash)]
pub struct ChannelId {
    text: Vec<u8>,
}

impl View for ChannelId {
    type V = Seq<u8>;

    closed spec fn view(&self) -> Seq<u8> {
        self.text@
    }
}

impl ChannelId {
    /// The identifier is a valid channel token.
    pub open spec fn wf(&self) -> bool {
        valid_channel_id(self@)
    }

    /// Validates `text` as a channel identifier and takes ownership of it.
    pub fn parse(text: Vec<u8>) -> (r: Result<ChannelId, QueryError>)
        ensures
            r is Ok <==> valid_channel_id(text@),
            r matches Ok(c) ==> c@ == text@ && c.wf(),
            r matches Err(e) ==> e == QueryError::DecodeError,
    {
        if 8 <= text.len() && text.len() <= 64 && check_id_bytes(&text) {
            Ok(ChannelId { text })
        } else {
            Err(QueryError::DecodeError)
        }
    }

    /// The `n`th channel in the node's numbering: `channel-` followed by `n`
    /// in base ten.
    pub fn from_index(n: u64) -> (r: ChannelId)
        ensures
            r@ == channel_prefix() + dec_rep(n as int),
            r.wf(),
    {
        let mut text: Vec<u8> = Vec::new();
        text.push(0x63u8);
        text.push(0x68u8);
        text.push(0x61u8);
        text.push(0x6eu8);
        text.push(0x6eu8);
        text.push(0x65u8);
        text.push(0x6cu8);
        text.push(0x2du8);
        proof {
            assert(text@ =~= channel_prefix());
        }
        let mut digits = u64_to_dec(n);
        text.append(&mut digits);
        proof {
            lemma_dec_rep_len_u64(n);
            lemma_dec_rep_bytes(n as int);
            assert forall|i: int| 0 <= i < text@.len() implies valid_id_byte(text@[i]) by {
                if i >= channel_prefix().len() {
                    assert(text@[i] == dec_rep(n as int)[i - channel_prefix().len()]);
                }
            }
        }
        ChannelId { text }
    }

    /// The canonical textual encoding.
    pub fn encoded(&self) -> (r: &Vec<u8>)
        ensures
            r@ == self@,
    {
        &self.text
    }

    /// An owned copy of the identifier, same token byte for byte.
    pub fn duplicate(&self) -> (r: Self)
        ensures
            r@ == self@,
    {
        let text = self.text.clone();
        proof {
            assert(text@ =~= self.text@);
        }
        Self { text }
    }
}

} // verus!
