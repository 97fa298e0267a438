//! The figures of a ping: how many echoes were sent and answered, and how
//! long the answers took.

use vstd::prelude::*;

verus! {

/// The figures of a run. Times are in microseconds.
#[derive(Debug, Clone, Copy, PartialEq, Eq, Structural)]
pub struct PingStats {
    pub sent: usize,
    pub received: usize,
    pub lost: usize,
    /// The shortest round trip, if an echo was answered.
    pub min: Option<u64>,
    /// The longest round trip, if an echo was answered.
    pub max: Option<u64>,
    /// The sum of the round trips.
    pub sum: u128,
}

/// Which echo requests a ping sends: one after the other, numbered from 0,
/// until the number asked for is reached, or without end where none was
/// asked for.
#[derive(Debug, Clone, Copy, PartialEq, Eq, Structural)]
pub struct Schedule {
    /// How many requests went out.
    pub sent: usize,
    /// How many are to go out; no limit where `None`.
    pub number: Option<usize>,
}

impl Schedule {
    /// Whether one more request goes out.
    pub open spec fn more(&self) -> bool {
        self.sent < usize::MAX && match self.number {
            Some(n) => self.sent < n,
            None => true,
        }
    }

    /// The schedule of a ping that sends `number` requests.
    pub fn new(number: Option<usize>) -> (s: Self)
        ensures
            s == (Schedule { sent: 0, number }),
    {
        Self { sent: 0, number }
    }

    /// The sequence number of the next request, if one more goes out: the
    /// count of those sent before it, in 16 bits.
    pub fn next(&mut self) -> (seq: Option<u16>)
        ensures
            final(self).number == old(self).number,
            seq == if old(self).more() {
                Some((old(self).sent % 65536) as u16)
            } else {
                None
            },
            final(self).sent == if old(self).more() {
                old(self).sent + 1
            } else {
                old(self).sent as int
            },
    {
        let more = self.sent < usize::MAX && match self.number {
            Some(n) => self.sent < n,
            None => true,
        };
        if more {
            let seq: u16 = (self.sent % 65536) as u16;
            self.sent = self.sent + 1;
            Some(seq)
        } else {
            None
        }
    }
}

impl PingStats {
    /// The counts add up.
    pub open spec fn wf(&self) -> bool {
        self.received <= self.sent && self.lost == self.sent - self.received
    }

    /// The share of echoes that were lost, in hundredths of a percent and
    /// rounded to the nearest.
    pub open spec fn spec_loss(&self) -> nat {
        ((self.lost * 10000 + self.sent / 2) / (self.sent as int)) as nat
    }

    /// The line that reports the counts, such as
    /// `Sent=3 Received=3 Lost=0 (0.00% loss)`.
    pub open spec fn spec_report(&self) -> Seq<char> {
        "Sent="@ + crate::text::spec_number(self.sent as nat) + " Received="@
            + crate::text::spec_number(self.received as nat) + " Lost="@
            + crate::text::spec_number(self.lost as nat) + " ("@ + crate::text::spec_number(
            self.spec_loss() / 100,
        ) + seq![
            '.',
            crate::text::spec_hex_digit(((self.spec_loss() / 10) % 10) as int),
            crate::text::spec_hex_digit((self.spec_loss() % 10) as int),
        ] + "% loss)"@
    }

    /// The share of echoes that were lost, in hundredths of a percent.
    /// At least one echo was sent.
    pub fn loss(&self) -> (l: u64)
        requires
            self.wf(),
            self.sent > 0,
        ensures
            l == self.spec_loss(),
            l <= 10000,
    {
        let lost: u128 = self.lost as u128;
        let sent: u128 = self.sent as u128;
        assert(lost * 10000 <= sent * 10000) by (nonlinear_arith)
            requires
                lost <= sent,
        ;
        let l: u128 = (lost * 10000 + sent / 2) / sent;
        assert(l <= 10000) by (nonlinear_arith)
            requires
                l == (lost * 10000 + sent / 2) / (sent as int),
                lost * 10000 <= sent * 10000,
                sent > 0,
        ;
        l as u64
    }

    /// The line that reports the counts. At least one echo was sent.
    pub fn report(&self) -> (line: String)
        requires
            self.wf(),
            self.sent > 0,
        ensures
            line@ == self.spec_report(),
    {
        let loss = self.loss();
        let mut line = String::new();
        crate::text::push_str(&mut line, "Sent=");
        crate::text::push_number(&mut line, self.sent as u64);
        crate::text::push_str(&mut line, " Received=");
        crate::text::push_number(&mut line, self.received as u64);
        crate::text::push_str(&mut line, " Lost=");
        crate::text::push_number(&mut line, self.lost as u64);
        crate::text::push_str(&mut line, " (");
        crate::text::push_number(&mut line, loss / 100);
        crate::text::push_char(&mut line, '.');
        crate::text::push_char(&mut line, crate::text::hex_digit(((loss / 10) % 10) as u8));
        crate::text::push_char(&mut line, crate::text::hex_digit((loss % 10) as u8));
        crate::text::push_str(&mut line, "% loss)");
        assert(line@ =~= self.spec_report());
        line
    }

    /// The mean round trip, if an echo was answered.
    pub fn average(&self) -> (avg: Option<u128>)
        ensures
            avg == if self.received > 0 {
                Some((self.sum / self.received as u128) as u128)
            } else {
                None
            },
    {
        if self.received > 0 {
            Some(self.sum / self.received as u128)
        } else {
            None
        }
    }
}

/// The number of echoes that were answered.
pub open spec fn spec_received(data: Seq<Option<u64>>) -> nat
    decreases data.len(),
{
    if data.len() == 0 {
        0
    } else {
        spec_received(data.drop_last()) + if data.last() is Some {
            1nat
        } else {
            0nat
        }
    }
}

/// The sum of the round trips.
pub open spec fn spec_sum(data: Seq<Option<u64>>) -> nat
    decreases data.len(),
{
    if data.len() == 0 {
        0
    } else {
        spec_sum(data.drop_last()) + match data.last() {
            Some(t) => t as nat,
            None => 0nat,
        }
    }
}

/// Whether `m` is the shortest round trip: none where no echo was
/// answered, else a round trip that none is shorter than.
pub open spec fn is_min(data: Seq<Option<u64>>, m: Option<u64>) -> bool {
    match m {
        Some(t) => data.contains(Some(t)) && forall|i: int|
            0 <= i < data.len() && data[i] is Some ==> t <= (#[trigger] data[i]).unwrap(),
        None => forall|i: int| 0 <= i < data.len() ==> #[trigger] data[i] is None,
    }
}

/// Whether `m` is the longest round trip: none where no echo was answered,
/// else a round trip that none is longer than.
pub open spec fn is_max(data: Seq<Option<u64>>, m: Option<u64>) -> bool {
    match m {
        Some(t) => data.contains(Some(t)) && forall|i: int|
            0 <= i < data.len() && data[i] is Some ==> t >= (#[trigger] data[i]).unwrap(),
        None => forall|i: int| 0 <= i < data.len() ==> #[trigger] data[i] is None,
    }
}

/// No more echoes are answered than were sent, and none takes longer than
/// the longest time there is.
pub proof fn lemma_bounds(data: Seq<Option<u64>>)
    ensures
        spec_received(data) <= data.len(),
        spec_sum(data) <= data.len() * u64::MAX,
    decreases data.len(),
{
    if data.len() > 0 {
        lemma_bounds(data.drop_last());
        assert((data.len() - 1) * u64::MAX + u64::MAX == data.len() * u64::MAX) by (nonlinear_arith);
    }
}

/// The figures of a run: `data` holds, for each echo sent, the round trip
/// of its answer or nothing.
#[verifier::rlimit(50)]
pub fn print_stats(data: &[Option<u64>]) -> (stats: PingStats)
    ensures
        stats.sent == data@.len(),
        stats.received == spec_received(data@),
        stats.lost == data@.len() - spec_received(data@),
        stats.sum == spec_sum(data@),
        is_min(data@, stats.min),
        is_max(data@, stats.max),
        stats.wf(),
{
    let mut received: usize = 0;
    let mut sum: u128 = 0;
    let mut min: Option<u64> = None;
    let mut max: Option<u64> = None;
    let mut i: usize = 0;
    while i < data.len()
        invariant
            i <= data@.len(),
            received == spec_received(data@.subrange(0, i as int)),
            sum == spec_sum(data@.subrange(0, i as int)),
            is_min(data@.subrange(0, i as int), min),
            is_max(data@.subrange(0, i as int), max),
        decreases data@.len() - i,
    {
        let ghost done = data@.subrange(0, i as int);
        let ghost next = data@.subrange(0, i + 1);
        proof {
            assert(next.drop_last() =~= done);
            assert(next.last() == data@[i as int]);
            lemma_bounds(next);
            assert(next.len() * u64::MAX <= usize::MAX * u64::MAX) by (nonlinear_arith)
                requires
                    next.len() <= usize::MAX,
            ;
            assert(usize::MAX * u64::MAX < u128::MAX) by (nonlinear_arith)
                requires
                    usize::MAX <= u64::MAX,
            ;
            assert forall|j: int| 0 <= j < done.len() implies done[j] == next[j] by {}
        }
        if let Some(t) = data[i] {
            received = received + 1;
            sum = sum + t as u128;
            let smaller = match min {
                Some(m) => t < m,
                None => true,
            };
            let larger = match max {
                Some(m) => t > m,
                None => true,
            };
            proof {
                assert(next[i as int] == Some(t));
                if let Some(m) = min {
                    let w = choose|w: int| 0 <= w < done.len() && done[w] == Some(m);
                    assert(next[w] == Some(m));
                }
                if let Some(m) = max {
                    let w = choose|w: int| 0 <= w < done.len() && done[w] == Some(m);
                    assert(next[w] == Some(m));
                }
            }
            if smaller {
                min = Some(t);
            }
            if larger {
                max = Some(t);
            }
            proof {
                assert forall|j: int| 0 <= j < next.len() && next[j] is Some implies min.unwrap() <= (
                #[trigger] next[j]).unwrap() by {
                    if j < i {
                        assert(done[j] == next[j]);
                    }
                }
                assert forall|j: int| 0 <= j < next.len() && next[j] is Some implies max.unwrap() >= (
                #[trigger] next[j]).unwrap() by {
                    if j < i {
                        assert(done[j] == next[j]);
                    }
                }
            }
        } else {
            proof {
                if let Some(m) = min {
                    let w = choose|w: int| 0 <= w < done.len() && done[w] == Some(m);
                    assert(next[w] == Some(m));
                }
                if let Some(m) = max {
                    let w = choose|w: int| 0 <= w < done.len() && done[w] == Some(m);
                    assert(next[w] == Some(m));
                }
                assert forall|j: int| 0 <= j < next.len() implies (min is Some && next[j] is Some
                    ==> min.unwrap() <= (#[trigger] next[j]).unwrap()) && (max is Some
                    && next[j] is Some ==> max.unwrap() >= next[j].unwrap()) && (min is None
                    ==> next[j] is None) by {
                    if j < i {
                        assert(done[j] == next[j]);
                    }
                }
            }
        }
        i += 1;
    }
    proof {
        assert(data@.subrange(0, i as int) =~= data@);
        lemma_bounds(data@);
    }
    PingStats { sent: data.len(), received, lost: data.len() - received, min, max, sum }
}

} // verus!
