//! A model of the measurement facility that `console.time` and
//! `console.timeEnd` talk to.
//!
//! The facility is outside this crate, so nothing here can watch the real
//! calls happen. Instead this module records, as plain data, the stream of
//! signals such a facility observes, and proves the discipline that a scoped
//! timer imposes on that stream: every measurement contributes exactly one
//! begin signal followed by exactly one end signal for its label.

use vstd::prelude::*;

verus! {

/// One signal sent to the measurement facility, as the facility sees it:
/// either the start or the end of the named measurement.
#[derive(Debug)]
pub enum Signal {
    /// A `begin` call carrying the measurement's label.
    Begin(String),
    /// An `end` call carrying the measurement's label.
    End(String),
}

/// The mathematical image of a [`Signal`]: the same choice, over a
/// mathematical string.
pub enum SignalView {
    /// The start of the measurement with this label.
    Begin(Seq<char>),
    /// The end of the measurement with this label.
    End(Seq<char>),
}

impl View for Signal {
    type V = SignalView;

    open spec fn view(&self) -> SignalView {
        match self {
            Signal::Begin(label) => SignalView::Begin(label@),
            Signal::End(label) => SignalView::End(label@),
        }
    }
}

impl Signal {
    /// True of a `begin` signal.
    pub fn is_begin(&self) -> (r: bool)
        ensures
            r == self@ is Begin,
    {
        match self {
            Signal::Begin(_) => true,
            Signal::End(_) => false,
        }
    }

    /// The label the signal carries.
    pub fn label(&self) -> (r: &str)
        ensures
            r@ == self@.label(),
    {
        match self {
            Signal::Begin(label) => label.as_str(),
            Signal::End(label) => label.as_str(),
        }
    }
}

impl SignalView {
    /// The label the signal carries.
    pub open spec fn label(self) -> Seq<char> {
        match self {
            SignalView::Begin(label) => label,
            SignalView::End(label) => label,
        }
    }
}

/// A measurement facility, reduced to what it observes: the signals it has
/// been sent, oldest first.
#[derive(Debug)]
pub struct Facility {
    log: Vec<Signal>,
}

impl View for Facility {
    type V = Seq<SignalView>;

    closed spec fn view(&self) -> Seq<SignalView> {
        self.log@.map_values(|s: Signal| s@)
    }
}

impl Facility {
    /// A facility that has observed nothing yet.
    pub fn new() -> (f: Facility)
        ensures
            f@ == Seq::<SignalView>::empty(),
    {
        let f = Facility { log: Vec::new() };
        proof {
            assert(f@ =~= Seq::<SignalView>::empty());
        }
        f
    }

    /// Observe the start of the measurement named `label`.
    pub fn observe_begin(&mut self, label: &str)
        ensures
            final(self)@ == old(self)@.push(SignalView::Begin(label@)),
    {
        let ghost before = self@;
        self.log.push(Signal::Begin(label.to_owned()));
        proof {
            assert(self@ =~= before.push(SignalView::Begin(label@)));
        }
    }

    /// Observe the end of the measurement named `label`.
    pub fn observe_end(&mut self, label: &str)
        ensures
            final(self)@ == old(self)@.push(SignalView::End(label@)),
    {
        let ghost before = self@;
        self.log.push(Signal::End(label.to_owned()));
        proof {
            assert(self@ =~= before.push(SignalView::End(label@)));
        }
    }

    /// How many signals the facility has observed.
    pub fn len(&self) -> (n: usize)
        ensures
            n == self@.len(),
    {
        self.log.len()
    }

    /// The `i`-th observed signal, oldest first.
    pub fn signal(&self, i: usize) -> (s: &Signal)
        requires
            i < self@.len(),
        ensures
            s@ == self@[i as int],
    {
        &self.log[i]
    }
}

/// One measurement run against an explicit [`Facility`]: the verified image
/// of a [`crate::timer::ConsoleTimer`], whose facility is the browser console
/// and therefore out of reach of any contract.
///
/// A `Measurement` is `Active` from [`Measurement::start`] until
/// [`Measurement::finish`], which consumes it; `Ended` is not a state a
/// caller can hold, so no instance can end twice.
#[derive(Debug)]
pub struct Measurement<'a> {
    label: &'a str,
}

impl<'a> View for Measurement<'a> {
    type V = Seq<char>;

    closed spec fn view(&self) -> Seq<char> {
        self.label@
    }
}

impl<'a> Measurement<'a> {
    /// Sends `begin(label)` to the facility and returns the now active
    /// measurement.
    pub fn start(facility: &mut Facility, label: &'a str) -> (m: Measurement<'a>)
        ensures
            m@ == label@,
            final(facility)@ == old(facility)@.push(SignalView::Begin(label@)),
    {
        facility.observe_begin(label);
        Measurement { label }
    }

    /// Sends `end` for this measurement's label and retires the measurement.
    ///
    /// Taking `self` by value is what rules a second end signal out: once a
    /// measurement has ended, no owner is left to end it again.
    pub fn finish(self, facility: &mut Facility)
        ensures
            final(facility)@ == old(facility)@.push(SignalView::End(self@)),
    {
        facility.observe_end(self.label);
    }

    /// Runs `body` between the begin and end signals of a measurement named
    /// `label`, handing its value through unchanged.
    pub fn scope<F, T>(facility: &mut Facility, label: &'a str, body: F) -> (r: T) where
        F: FnOnce() -> T,

        requires
            call_requires(body, ()),
        ensures
            call_ensures(body, (), r),
            final(facility)@ == old(facility)@.push(SignalView::Begin(label@)).push(
                SignalView::End(label@),
            ),
    {
        let m = Measurement::start(facility, label);
        let r = body();
        m.finish(facility);
        r
    }
}

/// How many times the signal `s` occurs in `log`.
pub open spec fn count_of(log: Seq<SignalView>, s: SignalView) -> nat
    decreases log.len(),
{
    if log.len() == 0 {
        0
    } else {
        count_of(log.drop_last(), s) + (if log.last() == s {
            1nat
        } else {
            0nat
        })
    }
}

/// `log` holds exactly one begin and exactly one end for `label`, and the
/// begin stands before the end.
pub open spec fn paired_once(log: Seq<SignalView>, label: Seq<char>) -> bool {
    &&& count_of(log, SignalView::Begin(label)) == 1
    &&& count_of(log, SignalView::End(label)) == 1
    &&& (exists|i: int, j: int|
        0 <= i < j < log.len() && log[i] == SignalView::Begin(label) && log[j]
            == SignalView::End(label))
}

/// Appending a signal raises its own count by one and leaves every other
/// count alone.
pub proof fn lemma_count_push(log: Seq<SignalView>, x: SignalView, s: SignalView)
    ensures
        count_of(log.push(x), s) == count_of(log, s) + (if x == s {
            1nat
        } else {
            0nat
        }),
{
    assert(log.push(x).drop_last() =~= log);
    assert(log.push(x).last() == x);
}

/// For every label, a measurement run against a facility that has seen
/// nothing of that label yet — its begin, then its end — leaves the stream
/// with exactly one begin and exactly one end for the label, the begin
/// standing before the end.
pub proof fn lemma_measurement_pairs_once(log: Seq<SignalView>, label: Seq<char>)
    requires
        count_of(log, SignalView::Begin(label)) == 0,
        count_of(log, SignalView::End(label)) == 0,
    ensures
        paired_once(log.push(SignalView::Begin(label)).push(SignalView::End(label)), label),
{
    let b = SignalView::Begin(label);
    let e = SignalView::End(label);
    let after = log.push(b).push(e);
    lemma_count_push(log, b, b);
    lemma_count_push(log, b, e);
    lemma_count_push(log.push(b), e, b);
    lemma_count_push(log.push(b), e, e);
    assert(after[log.len() as int] == b && after[log.len() as int + 1] == e);
}

/// No measurement ends twice: whatever ran between its begin and its end,
/// a single measurement adds exactly one end signal for its label to a
/// stream that held none.
pub proof fn lemma_end_exactly_once(log: Seq<SignalView>, label: Seq<char>)
    requires
        count_of(log, SignalView::End(label)) == 0,
    ensures
        count_of(log.push(SignalView::Begin(label)).push(SignalView::End(label)), SignalView::End(label)) == 1,
{
    lemma_count_push(log, SignalView::Begin(label), SignalView::End(label));
    lemma_count_push(log.push(SignalView::Begin(label)), SignalView::End(label), SignalView::End(label));
}

/// The count of each signal in a stream of four.
proof fn lemma_count_four(w: SignalView, x: SignalView, y: SignalView, z: SignalView, s: SignalView)
    ensures
        count_of(seq![w, x, y, z], s) == (if w == s {
            1nat
        } else {
            0nat
        }) + (if x == s {
            1nat
        } else {
            0nat
        }) + (if y == s {
            1nat
        } else {
            0nat
        }) + (if z == s {
            1nat
        } else {
            0nat
        }),
{
    let l0 = Seq::<SignalView>::empty();
    let l1 = l0.push(w);
    let l2 = l1.push(x);
    let l3 = l2.push(y);
    assert(seq![w, x, y, z] =~= l3.push(z));
    lemma_count_push(l0, w, s);
    lemma_count_push(l1, x, s);
    lemma_count_push(l2, y, s);
    lemma_count_push(l3, z, s);
}

/// Measurements with different labels are independent: whether the two run
/// one after the other or one inside the other, the stream pairs exactly one
/// begin with exactly one end for either label.
pub proof fn lemma_labels_independent(a: Seq<char>, b: Seq<char>)
    requires
        a != b,
    ensures
        paired_once(
            seq![
                SignalView::Begin(a),
                SignalView::End(a),
                SignalView::Begin(b),
                SignalView::End(b),
            ],
            a,
        ),
        paired_once(
            seq![
                SignalView::Begin(a),
                SignalView::End(a),
                SignalView::Begin(b),
                SignalView::End(b),
            ],
            b,
        ),
        paired_once(
            seq![
                SignalView::Begin(a),
                SignalView::Begin(b),
                SignalView::End(b),
                SignalView::End(a),
            ],
            a,
        ),
        paired_once(
            seq![
                SignalView::Begin(a),
                SignalView::Begin(b),
                SignalView::End(b),
                SignalView::End(a),
            ],
            b,
        ),
{
    let sequenced = seq![
        SignalView::Begin(a),
        SignalView::End(a),
        SignalView::Begin(b),
        SignalView::End(b),
    ];
    let nested = seq![
        SignalView::Begin(a),
        SignalView::Begin(b),
        SignalView::End(b),
        SignalView::End(a),
    ];
    lemma_count_four(sequenced[0], sequenced[1], sequenced[2], sequenced[3], SignalView::Begin(a));
    lemma_count_four(sequenced[0], sequenced[1], sequenced[2], sequenced[3], SignalView::End(a));
    lemma_count_four(sequenced[0], sequenced[1], sequenced[2], sequenced[3], SignalView::Begin(b));
    lemma_count_four(sequenced[0], sequenced[1], sequenced[2], sequenced[3], SignalView::End(b));
    lemma_count_four(nested[0], nested[1], nested[2], nested[3], SignalView::Begin(a));
    lemma_count_four(nested[0], nested[1], nested[2], nested[3], SignalView::End(a));
    lemma_count_four(nested[0], nested[1], nested[2], nested[3], SignalView::Begin(b));
    lemma_count_four(nested[0], nested[1], nested[2], nested[3], SignalView::End(b));
    assert(sequenced[0] == SignalView::Begin(a) && sequenced[1] == SignalView::End(a));
    assert(sequenced[2] == SignalView::Begin(b) && sequenced[3] == SignalView::End(b));
    assert(nested[0] == SignalView::Begin(a) && nested[3] == SignalView::End(a));
    assert(nested[1] == SignalView::Begin(b) && nested[2] == SignalView::End(b));
}

} // verus!
