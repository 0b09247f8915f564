//! The method negotiation that opens a SOCKS5 connection.

use crate::buf::put_u8;
use crate::error::{outcome, DecodeError, Decoded, Error};
use crate::method::Method;
use crate::reply::Replies;
use crate::text::{hex_text, with_hex};
use vstd::prelude::*;

verus! {

/// The protocol version byte.
pub const VERSION: u8 = 0x05;

/// The message of the error for a version byte other than 5.
pub open spec fn version_message(ver: u8) -> Seq<char> {
    "unsupported socks version "@ + hex_text(ver)
}

/// From a method byte to its method.
pub open spec fn to_method() -> spec_fn(u8) -> Method {
    |code: u8| Method::spec_from_u8(code)
}

/// Whether a method has an assigned meaning.
pub open spec fn is_known() -> spec_fn(Method) -> bool {
    |m: Method| !m.spec_is_invalid_method()
}

/// The methods that a list of method bytes offers: each byte's method, in
/// order, without those that have no assigned meaning.
pub open spec fn spec_methods(codes: Seq<u8>) -> Seq<Method> {
    codes.map_values(to_method()).filter(is_known())
}

/// What decoding an authentication request makes of `b`.
pub open spec fn spec_read_auth(b: Seq<u8>) -> Decoded<Seq<Method>> {
    if b.len() < 1 {
        Decoded::Incomplete(1)
    } else if b[0] != VERSION {
        Decoded::Rejected(Replies::GeneralFailure, version_message(b[0]))
    } else if b.len() < 2 {
        Decoded::Incomplete(1)
    } else if b.len() < 2 + b[1] {
        Decoded::Incomplete((2 + b[1] - b.len()) as nat)
    } else {
        Decoded::Complete(spec_methods(b.subrange(2, 2 + b[1])), (2 + b[1]) as nat)
    }
}

/// SOCKS5 authentication request packet
///
/// ```plain
/// +----+----------+----------+
/// |VER | NMETHODS | METHODS  |
/// +----+----------+----------+
/// | 5  |    1     | 1 to 255 |
/// +----+----------+----------|
/// ```
#[derive(Debug)]
pub struct AuthenticationRequest {
    pub methods: Vec<Method>,
}

impl View for AuthenticationRequest {
    type V = Seq<Method>;

    open spec fn view(&self) -> Seq<Method> {
        self.methods@
    }
}

impl AuthenticationRequest {
    /// Decodes one authentication request from the front of `source`. On
    /// success the request comes with the number of bytes it took.
    pub fn read_from(source: &[u8]) -> (r: Result<(AuthenticationRequest, usize), DecodeError>)
        ensures
            outcome(r) == spec_read_auth(source@),
    {
        if source.len() < 1 {
            return Err(DecodeError::UnexpectedEof { needed: 1 });
        }
        let ver = source[0];
        if ver != VERSION {
            let message = with_hex("unsupported socks version ", ver);
            return Err(
                DecodeError::Protocol(Error::new(Replies::GeneralFailure, message.as_str())),
            );
        }
        if source.len() < 2 {
            return Err(DecodeError::UnexpectedEof { needed: 1 });
        }
        let n: usize = source[1] as usize;
        if source.len() < 2 + n {
            return Err(DecodeError::UnexpectedEof { needed: 2 + n - source.len() });
        }
        let ghost codes = source@.subrange(2, 2 + n);
        let mut methods: Vec<Method> = Vec::new();
        let mut i: usize = 0;
        while i < n
            invariant
                i <= n <= 255,
                2 + n <= source@.len(),
                codes == source@.subrange(2, 2 + n),
                methods@ == spec_methods(codes.take(i as int)),
            decreases n - i,
        {
            let m = Method::from_u8(source[2 + i]);
            proof {
                let before = codes.take(i as int);
                assert(codes.take(i + 1) =~= before.push(codes[i as int]));
                before.lemma_push_map_commute(to_method(), codes[i as int]);
                before.map_values(to_method()).lemma_filter_push(m, is_known());
            }
            if !m.is_invalid_method() {
                methods.push(m);
            }
            i += 1;
        }
        assert(codes.take(n as int) =~= codes);
        Ok((AuthenticationRequest { methods }, 2 + n))
    }

    /// Whether the client has to authenticate: it has to unless it offers
    /// to go without.
    pub fn required_authentication(&self) -> (b: bool)
        ensures
            b == !self@.contains(Method::NoAuth),
    {
        let mut i: usize = 0;
        while i < self.methods.len()
            invariant
                i <= self.methods@.len(),
                forall|j: int| 0 <= j < i ==> self.methods@[j] != Method::NoAuth,
            decreases self.methods@.len() - i,
        {
            if self.methods[i] == Method::NoAuth {
                return false;
            }
            i += 1;
        }
        true
    }
}

/// SOCKS5 authentication response packet
///
/// ```plain
/// +----+--------+
/// |VER | METHOD |
/// +----+--------+
/// | 1  |   1    |
/// +----+--------+
/// ```
#[derive(Clone, Copy, Debug)]
pub struct AuthenticationResponse {
    pub method: Method,
}

impl AuthenticationResponse {
    /// The wire form of the response that names `method`.
    pub open spec fn wire(method: Method) -> Seq<u8> {
        seq![VERSION, method.spec_as_u8()]
    }

    /// The wire form: the version and the byte of the chosen method.
    pub fn to_bytes(&self) -> (buffer: Vec<u8>)
        ensures
            buffer@ == AuthenticationResponse::wire(self.method),
    {
        let mut buffer = Vec::new();
        put_u8(&mut buffer, VERSION);
        put_u8(&mut buffer, self.method.as_u8());
        assert(buffer@ =~= AuthenticationResponse::wire(self.method));
        buffer
    }
}

impl From<Method> for AuthenticationResponse {
    fn from(method: Method) -> (r: AuthenticationResponse)
        ensures
            r.method == method,
    {
        AuthenticationResponse { method }
    }
}

impl vstd::std_specs::convert::FromSpecImpl<Method> for AuthenticationResponse {
    open spec fn obeys_from_spec() -> bool {
        true
    }

    open spec fn from_spec(method: Method) -> AuthenticationResponse {
        AuthenticationResponse { method }
    }
}

/// The offered methods hold `m`, a method with a meaning, exactly when the
/// method bytes hold the byte of `m`.
pub proof fn lemma_methods_contains(codes: Seq<u8>, m: Method)
    requires
        !m.spec_is_invalid_method(),
    ensures
        spec_methods(codes).contains(m) <==> codes.contains(m.spec_as_u8()),
    decreases codes.len(),
{
    if codes.len() == 0 {
        assert(codes.map_values(to_method()) =~= Seq::<Method>::empty());
        assert(spec_methods(codes) =~= Seq::<Method>::empty()) by {
            reveal(Seq::filter);
        }
        assert(!spec_methods(codes).contains(m));
        assert(!codes.contains(m.spec_as_u8()));
    } else {
        let before = codes.drop_last();
        let last = codes.last();
        let lm = Method::spec_from_u8(last);
        assert(codes =~= before.push(last));
        before.lemma_push_map_commute(to_method(), last);
        before.map_values(to_method()).lemma_filter_push(lm, is_known());
        lemma_methods_contains(before, m);
        let prior = spec_methods(before);
        if spec_methods(codes).contains(m) {
            let i = choose|i: int| 0 <= i < spec_methods(codes).len() && spec_methods(codes)[i] == m;
            if i < prior.len() {
                assert(prior[i] == m);
                assert(prior.contains(m));
                let j = choose|j: int| 0 <= j < before.len() && before[j] == m.spec_as_u8();
                assert(codes[j] == m.spec_as_u8());
            } else {
                assert(lm == m);
                assert(codes[codes.len() - 1] == m.spec_as_u8());
            }
        }
        if codes.contains(m.spec_as_u8()) {
            let j = choose|j: int| 0 <= j < codes.len() && codes[j] == m.spec_as_u8();
            if j < before.len() {
                assert(before[j] == m.spec_as_u8());
                assert(before.contains(m.spec_as_u8()));
                let i = choose|i: int| 0 <= i < prior.len() && prior[i] == m;
                assert(spec_methods(codes)[i] == m);
            } else {
                assert(lm == m);
                assert(spec_methods(codes)[prior.len() as int] == m);
            }
        }
    }
}

/// A decoded request asks for authentication exactly when none of its
/// method bytes is zero, the byte of "no authentication".
pub proof fn lemma_auth_required(b: Seq<u8>)
    ensures
        spec_read_auth(b) matches Decoded::Complete(methods, n) ==> (methods.contains(
            Method::NoAuth,
        ) <==> b.subrange(2, n as int).contains(0u8)),
{
    if let Decoded::Complete(methods, n) = spec_read_auth(b) {
        lemma_methods_contains(b.subrange(2, n as int), Method::NoAuth);
    }
}

/// The wire form of a request that offers the methods of `codes` decodes to
/// those methods and takes exactly its bytes, whatever follows them.
pub proof fn lemma_auth_round_trip(codes: Seq<u8>, rest: Seq<u8>)
    requires
        codes.len() <= 255,
    ensures
        spec_read_auth(seq![VERSION, codes.len() as u8] + codes + rest) == Decoded::Complete(
            spec_methods(codes),
            2 + codes.len(),
        ),
{
    let b = seq![VERSION, codes.len() as u8] + codes + rest;
    assert(b.subrange(2, 2 + b[1]) =~= codes);
}

/// A decoded request took its two leading bytes and its method bytes;
/// while bytes are missing, at least one is asked for and never more than
/// the longest request could still need.
pub proof fn lemma_auth_bounds(b: Seq<u8>)
    ensures
        spec_read_auth(b) matches Decoded::Complete(_, n) ==> n == 2 + b[1] && n <= b.len(),
        spec_read_auth(b) matches Decoded::Incomplete(needed) ==> 1 <= needed && b.len() + needed
            <= 257,
{
}

} // verus!
