//! The admission gate: one token-bucket limiter per client address, made on
//! first sight of the address and kept for the life of the process.

use vstd::prelude::*;
use crate::json::str_equal;

verus! {

/// The default number of requests per minute for each address.
pub const DEFAULT_REQUESTS_PER_MINUTE: u32 = 60;

/// The address assumed when the request names none.
pub const FALLBACK_ADDRESS: &'static str = "127.0.0.1";

/// The body of the rejection that an exhausted address receives.
pub const RATE_LIMITED_BODY: &'static str = "{\"error\":\"Rate limit exceeded\",\"message\":\"Too many requests\"}";

/// The HTTP status of that rejection.
pub const RATE_LIMITED_STATUS: u16 = 429;

/// governor's direct limiters, in the order they were made. Verus cannot
/// declare governor's `RateLimiter` (its parameters are bound by governor's
/// traits), so the list is held here out of its sight.
#[verifier::external_body]
pub struct Limiters {
    list: Vec<governor::DefaultDirectRateLimiter>,
}

/// The rate (requests per minute) that each limiter of the list was made
/// with, in list order; its length is the number of limiters.
pub uninterp spec fn limiter_rates(l: Limiters) -> Seq<u32>;

/// How many times each limiter of the list has been checked, in list order.
pub uninterp spec fn limiter_checks(l: Limiters) -> Seq<nat>;

/// Relies on `Vec::new`: an empty list.
#[verifier::external_body]
fn limiters_new() -> (r: Limiters)
    ensures
        limiter_rates(r) == Seq::<u32>::empty(),
        limiter_checks(r) == Seq::<nat>::empty(),
{
    Limiters { list: Vec::new() }
}

/// Relies on governor's `Quota::per_minute` and `RateLimiter::direct`, and on
/// `Vec::push`: appends a limiter, not yet checked, that lets `per_minute`
/// requests through at once and refills at that rate per minute.
/// `NonZeroU32::new` gives `None` on zero, hence the precondition.
#[verifier::external_body]
fn limiters_push(l: &mut Limiters, per_minute: u32)
    requires
        per_minute > 0,
    ensures
        limiter_rates(*final(l)) == limiter_rates(*old(l)).push(per_minute),
        limiter_checks(*final(l)) == limiter_checks(*old(l)).push(0),
{
    let quota = governor::Quota::per_minute(std::num::NonZeroU32::new(per_minute).unwrap());
    l.list.push(governor::RateLimiter::direct(quota))
}

/// Relies on governor's `RateLimiter::check` on the limiter at `index`: one
/// check of that limiter and no other. `Quota::per_minute(n)` makes the
/// burst n, the allowance starts full, and a refused check takes nothing,
/// so a limiter's first n checks are let through whatever the time; after
/// that the answer depends on the time.
#[verifier::external_body]
fn limiters_admit(l: &mut Limiters, index: usize) -> (r: bool)
    requires
        index < limiter_rates(*old(l)).len(),
        limiter_checks(*old(l)).len() == limiter_rates(*old(l)).len(),
    ensures
        limiter_rates(*final(l)) == limiter_rates(*old(l)),
        limiter_checks(*final(l)) == limiter_checks(*old(l)).update(
            index as int,
            limiter_checks(*old(l))[index as int] + 1,
        ),
        limiter_checks(*old(l))[index as int] < limiter_rates(*old(l))[index as int] ==> r,
{
    l.list[index].check().is_ok()
}

/// What the admission gate does with a request.
#[derive(Debug)]
pub enum Admission {
    /// Hand the request on.
    Forward,
    /// Answer it at once with this status and body.
    Reject { status: u16, body: &'static str },
}

/// The admission for a request whose limiter did (`allowed`) or did not let
/// it through: forward it, or reject it with the rate-limit answer.
pub fn admission(allowed: bool) -> (r: Admission)
    ensures
        allowed ==> r is Forward,
        !allowed ==> (r matches Admission::Reject { status, body } && status == RATE_LIMITED_STATUS && body@
            == RATE_LIMITED_BODY@),
{
    if allowed {
        Admission::Forward
    } else {
        Admission::Reject { status: RATE_LIMITED_STATUS, body: RATE_LIMITED_BODY }
    }
}

/// The per-address limiters. Addresses are kept in the order first seen,
/// each once, and the limiter at a position belongs to the address there.
pub struct RateLimitingLayer {
    requests_per_minute: u32,
    addresses: Vec<String>,
    limiters: Limiters,
}

/// `new` is `old` after one check of `address` whose answer was `allowed`:
/// the address has a limiter at the layer's rate (made if it was new), that
/// limiter was checked once more and no other was checked, and a limiter
/// checked fewer times than its rate lets the request through.
pub open spec fn checked_once(old: RateLimitingLayer, new: RateLimitingLayer, address: Seq<char>, allowed: bool) -> bool {
    &&& new.wf()
    &&& new.requests_per_minute() == old.requests_per_minute()
    &&& old.addresses().contains(address) ==> new.addresses() == old.addresses()
    &&& !old.addresses().contains(address) ==> new.addresses() == old.addresses().push(address)
    &&& old.addresses().contains(address) ==> new.rates() == old.rates()
    &&& !old.addresses().contains(address) ==> new.rates() == old.rates().push(old.requests_per_minute())
    &&& new.checks_for(address) == old.checks_for(address) + 1
    &&& forall|a: Seq<char>| a != address ==> #[trigger] new.checks_for(a) == old.checks_for(a)
    &&& old.checks_for(address) < old.requests_per_minute() ==> allowed
}

impl RateLimitingLayer {
    /// The addresses seen so far.
    pub closed spec fn addresses(&self) -> Seq<Seq<char>> {
        self.addresses@.map_values(|a: String| a@)
    }

    pub closed spec fn requests_per_minute(&self) -> u32 {
        self.requests_per_minute
    }

    /// The rate of each address's limiter, in the order of `addresses`.
    pub closed spec fn rates(&self) -> Seq<u32> {
        limiter_rates(self.limiters)
    }

    /// How many times the limiter of address `a` has been checked; none for
    /// an address not seen yet.
    pub closed spec fn checks_for(&self, a: Seq<char>) -> nat {
        if exists|i: int| 0 <= i < self.addresses@.len() && (#[trigger] self.addresses@[i])@ == a {
            limiter_checks(self.limiters)[choose|i: int|
                0 <= i < self.addresses@.len() && (#[trigger] self.addresses@[i])@ == a]
        } else {
            0
        }
    }

    /// Each address once, and a limiter for each at the layer's non-zero rate.
    pub closed spec fn wf(&self) -> bool {
        &&& self.requests_per_minute > 0
        &&& limiter_rates(self.limiters).len() == self.addresses@.len()
        &&& limiter_checks(self.limiters).len() == self.addresses@.len()
        &&& forall|i: int|
            0 <= i < limiter_rates(self.limiters).len() ==> #[trigger] limiter_rates(self.limiters)[i]
                == self.requests_per_minute
        &&& forall|i: int, j: int|
            0 <= i < j < self.addresses@.len() ==> (#[trigger] self.addresses@[i])@ != (#[trigger] self.addresses@[j])@
    }

    /// The count of the address at `i` is the one at position `i`.
    proof fn lemma_checks_at(&self, i: int)
        requires
            self.wf(),
            0 <= i < self.addresses@.len(),
        ensures
            self.checks_for(self.addresses@[i]@) == limiter_checks(self.limiters)[i],
    {
        let a = self.addresses@[i]@;
        assert(exists|k: int| 0 <= k < self.addresses@.len() && (#[trigger] self.addresses@[k])@ == a);
        let j = choose|k: int| 0 <= k < self.addresses@.len() && (#[trigger] self.addresses@[k])@ == a;
        if j < i {
            assert(self.addresses@[j]@ != self.addresses@[i]@);
        } else if i < j {
            assert(self.addresses@[i]@ != self.addresses@[j]@);
        }
    }

    /// An address not seen has no checks.
    proof fn lemma_checks_absent(&self, a: Seq<char>)
        requires
            !self.addresses().contains(a),
        ensures
            self.checks_for(a) == 0,
    {
        if exists|i: int| 0 <= i < self.addresses@.len() && (#[trigger] self.addresses@[i])@ == a {
            let i = choose|i: int| 0 <= i < self.addresses@.len() && (#[trigger] self.addresses@[i])@ == a;
            assert(self.addresses()[i] == a);
        }
    }

    pub fn new(requests_per_minute: u32) -> (r: Self)
        requires
            requests_per_minute > 0,
        ensures
            r.wf(),
            r.requests_per_minute() == requests_per_minute,
            r.addresses() == Seq::<Seq<char>>::empty(),
            r.rates() == Seq::<u32>::empty(),
            forall|a: Seq<char>| #[trigger] r.checks_for(a) == 0,
    {
        let r = RateLimitingLayer { requests_per_minute, addresses: Vec::new(), limiters: limiters_new() };
        assert(r.addresses() =~= Seq::<Seq<char>>::empty());
        r
    }

    /// The position of `address`, making a limiter for it on first sight.
    fn get_or_create_limiter(&mut self, address: &str) -> (r: usize)
        requires
            old(self).wf(),
        ensures
            final(self).wf(),
            final(self).requests_per_minute() == old(self).requests_per_minute(),
            r < final(self).addresses().len(),
            final(self).addresses()[r as int] == address@,
            old(self).addresses().contains(address@) ==> final(self).addresses() == old(self).addresses(),
            !old(self).addresses().contains(address@) ==> final(self).addresses() == old(self).addresses().push(
                address@,
            ),
            old(self).addresses().contains(address@) ==> final(self).rates() == old(self).rates(),
            !old(self).addresses().contains(address@) ==> final(self).rates() == old(self).rates().push(
                old(self).requests_per_minute(),
            ),
            forall|a: Seq<char>| #[trigger] final(self).checks_for(a) == old(self).checks_for(a),
    {
        let ghost before = *self;
        let mut i: usize = 0;
        while i < self.addresses.len()
            invariant
                self.wf(),
                *self == before,
                i <= self.addresses@.len(),
                forall|k: int| 0 <= k < i ==> (#[trigger] self.addresses@[k])@ != address@,
            decreases self.addresses@.len() - i,
        {
            if str_equal(self.addresses[i].as_str(), address) {
                assert(self.addresses().contains(address@)) by {
                    assert(self.addresses()[i as int] == address@);
                }
                return i;
            }
            i = i + 1;
        }
        assert(!self.addresses().contains(address@)) by {
            if self.addresses().contains(address@) {
                let k = choose|k: int| 0 <= k < self.addresses().len() && self.addresses()[k] == address@;
                assert(self.addresses@[k]@ == address@);
            }
        }
        let ghost addrs_before = self.addresses@;
        self.addresses.push(String::from_str(address));
        let ghost rates_before = limiter_rates(self.limiters);
        limiters_push(&mut self.limiters, self.requests_per_minute);
        assert(forall|k: int| 0 <= k < rates_before.len() ==> limiter_rates(self.limiters)[k] == rates_before[k]);
        assert(self.addresses() =~= addrs_before.map_values(|a: String| a@).push(address@));
        proof {
            assert forall|a: Seq<char>| #[trigger] self.checks_for(a) == before.checks_for(a) by {
                if a == address@ {
                    self.lemma_checks_at(i as int);
                    before.lemma_checks_absent(a);
                } else if self.addresses().contains(a) {
                    let k = choose|k: int| 0 <= k < self.addresses().len() && self.addresses()[k] == a;
                    assert(k < i);
                    self.lemma_checks_at(k);
                    before.lemma_checks_at(k);
                } else {
                    self.lemma_checks_absent(a);
                    assert(!before.addresses().contains(a)) by {
                        if before.addresses().contains(a) {
                            let k = choose|k: int| 0 <= k < before.addresses().len() && before.addresses()[k] == a;
                            assert(self.addresses()[k] == a);
                        }
                    }
                    before.lemma_checks_absent(a);
                }
            }
        }
        i
    }

    /// Whether a request from `address` may pass: its limiter is made on
    /// first sight, then checked once. No other address's limiter is checked.
    pub fn check(&mut self, address: &str) -> (allowed: bool)
        requires
            old(self).wf(),
        ensures
            checked_once(*old(self), *final(self), address@, allowed),
    {
        let ghost before = *self;
        let i = self.get_or_create_limiter(address);
        let ghost mid = *self;
        proof {
            mid.lemma_checks_at(i as int);
        }
        let allowed = limiters_admit(&mut self.limiters, i);
        proof {
            assert(forall|k: int|
                0 <= k < limiter_rates(self.limiters).len() ==> #[trigger] limiter_rates(self.limiters)[k]
                    == self.requests_per_minute);
            assert(self.wf());
            self.lemma_checks_at(i as int);
            assert forall|a: Seq<char>| a != address@ implies #[trigger] self.checks_for(a) == before.checks_for(a) by {
                if mid.addresses().contains(a) {
                    let k = choose|k: int| 0 <= k < mid.addresses().len() && mid.addresses()[k] == a;
                    mid.lemma_checks_at(k);
                    self.lemma_checks_at(k);
                } else {
                    mid.lemma_checks_absent(a);
                    self.lemma_checks_absent(a);
                }
                assert(mid.checks_for(a) == before.checks_for(a));
            }
            assert(mid.checks_for(address@) == before.checks_for(address@));
        }
        allowed
    }

    /// The admission gate: checks `address` once, and forwards the request
    /// or answers it with the rate-limit rejection.
    pub fn gate(&mut self, address: &str) -> (r: Admission)
        requires
            old(self).wf(),
        ensures
            checked_once(*old(self), *final(self), address@, r is Forward),
            r matches Admission::Reject { status, body } ==> status == RATE_LIMITED_STATUS && body@
                == RATE_LIMITED_BODY@,
    {
        let allowed = self.check(address);
        admission(allowed)
    }
}

/// The limiters at the default rate.
pub fn rate_limiting_layer() -> (r: RateLimitingLayer)
    ensures
        r.wf(),
        r.requests_per_minute() == DEFAULT_REQUESTS_PER_MINUTE,
        r.addresses() == Seq::<Seq<char>>::empty(),
        r.rates() == Seq::<u32>::empty(),
        forall|a: Seq<char>| #[trigger] r.checks_for(a) == 0,
{
    RateLimitingLayer::new(DEFAULT_REQUESTS_PER_MINUTE)
}

/// The first address of an `X-Forwarded-For` header: the text before the
/// first comma, trimmed.
pub fn first_forwarded_address(header: &str) -> (r: String)
    ensures
        exists|j: int|
            #![trigger header@.subrange(0, j)]
            0 <= j <= header@.len() && (j == header@.len() || header@[j] == ',') && (forall|k: int|
                0 <= k < j ==> #[trigger] header@[k] != ',') && crate::text::is_trim_of(r@, header@.subrange(0, j)),
{
    let n = header.unicode_len();
    let mut j: usize = 0;
    while j < n && header.get_char(j) != ','
        invariant
            n == header@.len(),
            j <= n,
            forall|k: int| 0 <= k < j ==> #[trigger] header@[k] != ',',
        decreases n - j,
    {
        j = j + 1;
    }
    let first = header.substring_char(0, j);
    let r = crate::text::trim(first);
    assert(first@ == header@.subrange(0, j as int));
    assert(j == n || header@[j as int] == ',');
    r
}

/// The address a request is counted under: the forwarded address if it is a
/// valid address, else the real-IP address if it is, else the fallback. The
/// caller validates each header value and passes the valid ones.
pub fn client_address(forwarded: Option<String>, real_ip: Option<String>) -> (r: String)
    ensures
        match (forwarded, real_ip) {
            (Some(f), _) => r == f,
            (None, Some(x)) => r == x,
            (None, None) => r@ == FALLBACK_ADDRESS@,
        },
{
    match forwarded {
        Some(f) => f,
        None => match real_ip {
            Some(x) => x,
            None => String::from_str(FALLBACK_ADDRESS),
        },
    }
}

} // verus!
