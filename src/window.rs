//! The price window: samples in arrival order, eviction of old samples,
//! and the sum and count of the samples inside a time window.
use vstd::prelude::*;

verus! {

/// A sample: the second at which it was taken, and the price in units of 10^-8.
pub type Sample = (u64, i64);

/// A sample taken at `timestamp` lies inside the window of `window_seconds`
/// that ends at `now`; a sample from after `now` always does.
pub open spec fn in_window(timestamp: u64, now: u64, window_seconds: u64) -> bool {
    (now as int) - (timestamp as int) < (window_seconds as int)
}

/// The samples of `s` inside the window, in their order.
pub open spec fn kept(s: Seq<Sample>, now: u64, window_seconds: u64) -> Seq<Sample>
    decreases s.len(),
{
    if s.len() == 0 {
        Seq::<Sample>::empty()
    } else {
        let r = kept(s.drop_last(), now, window_seconds);
        if in_window(s.last().0, now, window_seconds) {
            r.push(s.last())
        } else {
            r
        }
    }
}

/// The sum of the prices of `s`.
pub open spec fn price_total(s: Seq<Sample>) -> int
    decreases s.len(),
{
    if s.len() == 0 {
        0
    } else {
        price_total(s.drop_last()) + s.last().1 as int
    }
}

/// Whether a sample taken at `timestamp` lies inside the window.
pub fn within_window(timestamp: u64, now: u64, window_seconds: u64) -> (r: bool)
    ensures
        r == in_window(timestamp, now, window_seconds),
{
    timestamp > now || now - timestamp < window_seconds
}

/// The mean of a set of prices, kept exactly as a total over a count.
#[derive(Clone, Copy, Debug, PartialEq, Eq)]
pub struct Mean {
    pub total: i128,
    pub count: usize,
}

impl Mean {
    /// The mean as the pair (total, count); a count of zero stands for the mean 0.
    pub open spec fn view(&self) -> (int, nat) {
        (self.total as int, self.count as nat)
    }

    pub fn total(&self) -> (r: i128)
        ensures
            r == self.total,
    {
        self.total
    }

    pub fn count(&self) -> (r: usize)
        ensures
            r == self.count,
    {
        self.count
    }
}

/// An ordered collection of samples.
pub struct PriceWindow {
    samples: Vec<Sample>,
}

impl View for PriceWindow {
    type V = Seq<Sample>;

    closed spec fn view(&self) -> Seq<Sample> {
        self.samples@
    }
}

impl PriceWindow {
    pub fn new() -> (r: PriceWindow)
        ensures
            r@ == Seq::<Sample>::empty(),
    {
        PriceWindow { samples: Vec::new() }
    }

    pub fn len(&self) -> (r: usize)
        ensures
            r == self@.len(),
    {
        self.samples.len()
    }

    /// The sample at `i`.
    pub fn get(&self, i: usize) -> (r: Sample)
        requires
            i < self@.len(),
        ensures
            r == self@[i as int],
    {
        self.samples[i]
    }

    /// Appends a sample, whatever its price.
    pub fn record(&mut self, timestamp: u64, price: i64)
        ensures
            final(self)@ == old(self)@.push((timestamp, price)),
    {
        self.samples.push((timestamp, price));
    }

    /// Removes every sample with `now - timestamp >= window_seconds`; the rest keep their order.
    pub fn retain_within(&mut self, now: u64, window_seconds: u64)
        ensures
            final(self)@ == kept(old(self)@, now, window_seconds),
    {
        let ghost s = self@;
        let mut out: Vec<Sample> = Vec::new();
        let mut i: usize = 0;
        while i < self.samples.len()
            invariant
                self@ == s,
                i <= s.len(),
                out@ == kept(s.take(i as int), now, window_seconds),
            decreases s.len() - i,
        {
            let x = self.samples[i];
            assert(s.take(i as int + 1).drop_last() =~= s.take(i as int));
            if within_window(x.0, now, window_seconds) {
                out.push(x);
            }
            i = i + 1;
        }
        assert(s.take(s.len() as int) =~= s);
        self.samples = out;
    }

    /// The total and the count of the prices of the samples with
    /// `now - timestamp < window_seconds`. Reads only.
    pub fn average_within(&self, now: u64, window_seconds: u64) -> (r: Mean)
        ensures
            r@ == (price_total(kept(self@, now, window_seconds)), kept(self@, now, window_seconds).len()),
    {
        let ghost s = self@;
        let mut total: i128 = 0;
        let mut count: usize = 0;
        let mut i: usize = 0;
        while i < self.samples.len()
            invariant
                self@ == s,
                i <= s.len(),
                count <= i,
                total == price_total(kept(s.take(i as int), now, window_seconds)),
                count == kept(s.take(i as int), now, window_seconds).len(),
                -(count as int) * 0x8000_0000_0000_0000 <= total,
                total <= (count as int) * 0x7fff_ffff_ffff_ffff,
            decreases s.len() - i,
        {
            let x = self.samples[i];
            assert(s.take(i as int + 1).drop_last() =~= s.take(i as int));
            if within_window(x.0, now, window_seconds) {
                let ghost c = count as int;
                let ghost r = kept(s.take(i as int), now, window_seconds);
                assert(r.push(x).drop_last() =~= r);
                assert(c + 1 <= 0x1_0000_0000_0000_0000);
                assert((c + 1) * 0x8000_0000_0000_0000 <= 0x1_0000_0000_0000_0000 * 0x8000_0000_0000_0000)
                    by (nonlinear_arith)
                    requires c + 1 <= 0x1_0000_0000_0000_0000;
                assert((c + 1) * 0x7fff_ffff_ffff_ffff <= 0x1_0000_0000_0000_0000 * 0x7fff_ffff_ffff_ffff)
                    by (nonlinear_arith)
                    requires c + 1 <= 0x1_0000_0000_0000_0000;
                total = total + x.1 as i128;
                count = count + 1;
            }
            i = i + 1;
        }
        assert(s.take(s.len() as int) =~= s);
        Mean { total, count }
    }
}

/// The last element of a non-empty sequence and those before it are all it holds.
proof fn lemma_contains_split(s: Seq<Sample>, x: Sample)
    requires
        s.len() > 0,
    ensures
        s.contains(x) <==> (s.drop_last().contains(x) || x == s.last()),
{
    let d = s.drop_last();
    if s.contains(x) {
        let j = choose|j: int| 0 <= j < s.len() && s[j] == x;
        if j < s.len() - 1 {
            assert(d[j] == x);
        }
    }
    if d.contains(x) {
        let j = choose|j: int| 0 <= j < d.len() && d[j] == x;
        assert(s[j] == x);
    }
    if x == s.last() {
        assert(s[s.len() - 1] == x);
    }
}

/// A sample is kept by eviction exactly when it lies inside the window.
pub proof fn lemma_kept_members(s: Seq<Sample>, now: u64, window_seconds: u64, x: Sample)
    ensures
        kept(s, now, window_seconds).contains(x) <==> (s.contains(x) && in_window(x.0, now, window_seconds)),
    decreases s.len(),
{
    if s.len() > 0 {
        lemma_kept_members(s.drop_last(), now, window_seconds, x);
        lemma_contains_split(s, x);
        let r = kept(s.drop_last(), now, window_seconds);
        if in_window(s.last().0, now, window_seconds) {
            lemma_contains_split(r.push(s.last()), x);
            assert(r.push(s.last()).drop_last() =~= r);
        }
    }
}

/// Evicting a second time with the same `now` and window removes nothing.
pub proof fn lemma_retain_idempotent(s: Seq<Sample>, now: u64, window_seconds: u64)
    ensures
        kept(kept(s, now, window_seconds), now, window_seconds) == kept(s, now, window_seconds),
    decreases s.len(),
{
    if s.len() > 0 {
        lemma_retain_idempotent(s.drop_last(), now, window_seconds);
        let r = kept(s.drop_last(), now, window_seconds);
        if in_window(s.last().0, now, window_seconds) {
            assert(r.push(s.last()).drop_last() =~= r);
        }
    }
}

/// The window average is taken over exactly the samples that eviction would
/// keep: evicting first does not change it.
pub proof fn lemma_average_ignores_eviction(s: Seq<Sample>, now: u64, window_seconds: u64)
    ensures
        price_total(kept(kept(s, now, window_seconds), now, window_seconds))
            == price_total(kept(s, now, window_seconds)),
        kept(kept(s, now, window_seconds), now, window_seconds).len()
            == kept(s, now, window_seconds).len(),
{
    lemma_retain_idempotent(s, now, window_seconds);
}


/// Appending a sample adds its price and one to the count of the window
/// average exactly when it lies inside the window, and changes nothing else.
pub proof fn lemma_append_to_average(s: Seq<Sample>, x: Sample, now: u64, window_seconds: u64)
    ensures
        in_window(x.0, now, window_seconds) ==> (
            price_total(kept(s.push(x), now, window_seconds))
                == price_total(kept(s, now, window_seconds)) + x.1
            && kept(s.push(x), now, window_seconds).len() == kept(s, now, window_seconds).len() + 1),
        !in_window(x.0, now, window_seconds) ==> (
            price_total(kept(s.push(x), now, window_seconds)) == price_total(kept(s, now, window_seconds))
            && kept(s.push(x), now, window_seconds).len() == kept(s, now, window_seconds).len()),
{
    assert(s.push(x).drop_last() =~= s);
    let r = kept(s, now, window_seconds);
    assert(r.push(x).drop_last() =~= r);
}

} // verus!
