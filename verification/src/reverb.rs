//! The reverberators: four wirings of parallel comb filters and series
//! allpass filters.
//!
//! | wiring       | combs     | mix  | allpasses                        |
//! |--------------|-----------|------|----------------------------------|
//! | `CombReverb` | 4, plain  | 0.25 | none                             |
//! | `Schroeder`  | 4, plain  | none | 4: two beside the sum, two on it |
//! | `LpfComb`    | 6, damped | 0.8  | none                             |
//! | `Moorer`     | 6, damped | 0.75 | 1, on the sum                    |
//!
//! Every comb takes the input of the reverberator. The outputs of the combs
//! are summed with alternating sign, the first one added; the sum is scaled
//! by the mix and then runs through the allpasses of the series chain. The
//! host's arithmetic is
//!
//! ```text
//! sum = comb_0(x) - comb_1(x) + comb_2(x) - ...
//! y   = allpasses of the series chain, in order, on mix * sum
//! ```
//!
//! with the recurrences of the comb and of the allpass for each filter. The
//! delays and the gains of the filters are the host's too: a comb of
//! `delay_seconds` in a reverberator that decays in `decay_seconds` has the
//! gain `10 ^ (-3 * delay_seconds / decay_seconds)`, times `1 - damp` where it
//! is damped.

use crate::allpass::{
    lemma_silence as lemma_allpass_silence, AllPass, AllPassTaps, AllPassView, ALLPASS_CAPACITY,
};
use crate::comb::{
    delay_fits, lemma_silence as lemma_comb_silence, CombFilter, CombTaps, CombType, CombView,
    MAX_INDEX,
};
use crate::error::ConfigError;
use crate::sample::{clamp, clamp_spec, lemma_clamp_idempotent, ONE, ZERO};
use vstd::prelude::*;

verus! {

/// The gain of every allpass filter of a reverberator: 0.707.
pub const ALLPASS_GAIN: u64 = 0x3FE6_9FBE_76C8_B439;

/// The largest damping: 0.9999.
pub const MAX_DAMP: u64 = 0x3FEF_FF2E_48E8_A71E;

/// The mix of the comb reverberator: 0.25.
pub const COMB_REVERB_MIX: u64 = 0x3FD0_0000_0000_0000;

/// The mix of the damped comb reverberator: 0.8.
pub const LPF_COMB_MIX: u64 = 0x3FE9_9999_9999_999A;

/// The mix of the Moorer reverberator: 0.75.
pub const MOORER_MIX: u64 = 0x3FE8_0000_0000_0000;

/// The shortest delay of an allpass of a reverberator, in milliseconds: 2.
pub const ALLPASS_MIN_MS: u64 = 0x4000_0000_0000_0000;

/// The bound below which the delay of an allpass of a reverberator lies, in
/// milliseconds: 8.
pub const ALLPASS_MAX_MS: u64 = 0x4020_0000_0000_0000;

/// The wirings.
#[derive(Clone, Copy, Debug, PartialEq, Eq)]
pub enum ReverbType {
    CombReverb,
    Schroeder,
    LpfComb,
    Moorer,
}

/// A run of neighbouring allpass filters: those at `first` and after it,
/// `count` of them.
#[derive(Clone, Copy, Debug, PartialEq, Eq)]
pub struct Chain {
    pub first: usize,
    pub count: usize,
}

impl ReverbType {
    /// The number of comb filters of the wiring.
    pub open spec fn combs(self) -> nat {
        match self {
            ReverbType::CombReverb | ReverbType::Schroeder => 4,
            ReverbType::LpfComb | ReverbType::Moorer => 6,
        }
    }

    /// The number of allpass filters of the wiring.
    pub open spec fn allpasses(self) -> nat {
        match self {
            ReverbType::CombReverb | ReverbType::LpfComb => 0,
            ReverbType::Schroeder => 4,
            ReverbType::Moorer => 1,
        }
    }

    /// Whether the combs of the wiring are damped.
    pub open spec fn damped(self) -> bool {
        self is LpfComb || self is Moorer
    }

    /// The gain that scales the sum of the combs, where the wiring has one.
    pub open spec fn mix(self) -> Option<u64> {
        match self {
            ReverbType::CombReverb => Some(COMB_REVERB_MIX),
            ReverbType::Schroeder => None,
            ReverbType::LpfComb => Some(LPF_COMB_MIX),
            ReverbType::Moorer => Some(MOORER_MIX),
        }
    }

    /// The allpasses that the scaled sum runs through, in their order.
    pub open spec fn series(self) -> Chain {
        match self {
            ReverbType::Schroeder => Chain { first: 2, count: 2 },
            ReverbType::Moorer => Chain { first: 0, count: 1 },
            _ => Chain { first: 0, count: 0 },
        }
    }

    /// The allpasses that the input runs through beside the sum, in their
    /// order. Their histories move with every sample; what comes out of the
    /// last of them is not heard. Whether it was meant to be heard is an open
    /// question of the Schroeder wiring, which is kept as it stands.
    pub open spec fn side(self) -> Chain {
        match self {
            ReverbType::Schroeder => Chain { first: 0, count: 2 },
            _ => Chain { first: 0, count: 0 },
        }
    }

    /// The delay of comb `i` in milliseconds, as a sample word: 21, 26, 31
    /// and 37 in the comb reverberator; in the others 15 times the power
    /// `i + 1` of 1.5, that is 22.5, 33.75, 50.625, 75.9375, 113.90625 and
    /// 170.859375.
    pub open spec fn delay_ms(self, i: int) -> u64 {
        if self is CombReverb {
            if i == 0 {
                0x4035_0000_0000_0000
            } else if i == 1 {
                0x403A_0000_0000_0000
            } else if i == 2 {
                0x403F_0000_0000_0000
            } else {
                0x4042_8000_0000_0000
            }
        } else {
            if i == 0 {
                0x4036_8000_0000_0000
            } else if i == 1 {
                0x4040_E000_0000_0000
            } else if i == 2 {
                0x4049_5000_0000_0000
            } else if i == 3 {
                0x4052_FC00_0000_0000
            } else if i == 4 {
                0x405C_7A00_0000_0000
            } else {
                0x4065_5B80_0000_0000
            }
        }
    }

    /// The number of comb filters of the wiring.
    pub fn comb_count(&self) -> (n: usize)
        ensures
            n == self.combs(),
    {
        match self {
            ReverbType::CombReverb | ReverbType::Schroeder => 4,
            ReverbType::LpfComb | ReverbType::Moorer => 6,
        }
    }

    /// The number of allpass filters of the wiring.
    pub fn allpass_count(&self) -> (n: usize)
        ensures
            n == self.allpasses(),
    {
        match self {
            ReverbType::CombReverb | ReverbType::LpfComb => 0,
            ReverbType::Schroeder => 4,
            ReverbType::Moorer => 1,
        }
    }

    /// Whether the combs of the wiring are damped.
    pub fn is_damped(&self) -> (r: bool)
        ensures
            r == self.damped(),
    {
        match self {
            ReverbType::LpfComb | ReverbType::Moorer => true,
            _ => false,
        }
    }

    /// The gain that scales the sum of the combs, where the wiring has one.
    pub fn mix_gain(&self) -> (gain: Option<u64>)
        ensures
            gain == self.mix(),
    {
        match self {
            ReverbType::CombReverb => Some(COMB_REVERB_MIX),
            ReverbType::Schroeder => None,
            ReverbType::LpfComb => Some(LPF_COMB_MIX),
            ReverbType::Moorer => Some(MOORER_MIX),
        }
    }

    /// The allpasses that the scaled sum runs through.
    pub fn series_chain(&self) -> (chain: Chain)
        ensures
            chain == self.series(),
            chain.first + chain.count <= self.allpasses(),
    {
        match self {
            ReverbType::Schroeder => Chain { first: 2, count: 2 },
            ReverbType::Moorer => Chain { first: 0, count: 1 },
            _ => Chain { first: 0, count: 0 },
        }
    }

    /// The allpasses that the input runs through beside the sum.
    pub fn side_chain(&self) -> (chain: Chain)
        ensures
            chain == self.side(),
            chain.first + chain.count <= self.series().first,
    {
        match self {
            ReverbType::Schroeder => Chain { first: 0, count: 2 },
            _ => Chain { first: 0, count: 0 },
        }
    }

    /// The delay of comb `i` in milliseconds, as a sample word.
    pub fn comb_delay_ms(&self, i: usize) -> (ms: u64)
        requires
            i < self.combs(),
        ensures
            ms == self.delay_ms(i as int),
    {
        match self {
            ReverbType::CombReverb => {
                if i == 0 {
                    0x4035_0000_0000_0000
                } else if i == 1 {
                    0x403A_0000_0000_0000
                } else if i == 2 {
                    0x403F_0000_0000_0000
                } else {
                    0x4042_8000_0000_0000
                }
            },
            _ => {
                if i == 0 {
                    0x4036_8000_0000_0000
                } else if i == 1 {
                    0x4040_E000_0000_0000
                } else if i == 2 {
                    0x4049_5000_0000_0000
                } else if i == 3 {
                    0x4052_FC00_0000_0000
                } else if i == 4 {
                    0x405C_7A00_0000_0000
                } else {
                    0x4065_5B80_0000_0000
                }
            },
        }
    }
}

/// Whether one of the delays is zero.
pub open spec fn has_zero(delays: Seq<usize>) -> bool {
    exists|i: int| 0 <= i < delays.len() && delays[i] == 0
}

/// Whether every delay is below `limit`.
pub open spec fn all_below(delays: Seq<usize>, limit: int) -> bool {
    forall|i: int| 0 <= i < delays.len() ==> delays[i] < limit
}

/// The bound below which the delay of a comb of the wiring lies: a damped
/// comb reads one sample further back than a plain one.
pub open spec fn comb_limit(reverb_type: ReverbType) -> int {
    if reverb_type.damped() {
        MAX_INDEX - 1
    } else {
        MAX_INDEX as int
    }
}

/// Whether the wiring has as many combs as there are delays and gains, and
/// as many allpasses as there are allpass delays.
pub open spec fn sizes_match(
    reverb_type: ReverbType,
    comb_delays: Seq<usize>,
    comb_gains: Seq<u64>,
    allpass_delays: Seq<usize>,
) -> bool {
    &&& comb_delays.len() == reverb_type.combs()
    &&& comb_gains.len() == reverb_type.combs()
    &&& allpass_delays.len() == reverb_type.allpasses()
}

/// Whether a reverberator can be built from these delays and gains: they
/// are as many as the wiring has filters, no delay is zero, and none reaches
/// past the history of its filter.
pub open spec fn bank_fits(
    reverb_type: ReverbType,
    comb_delays: Seq<usize>,
    comb_gains: Seq<u64>,
    allpass_delays: Seq<usize>,
) -> bool {
    &&& sizes_match(reverb_type, comb_delays, comb_gains, allpass_delays)
    &&& !has_zero(comb_delays)
    &&& !has_zero(allpass_delays)
    &&& all_below(comb_delays, comb_limit(reverb_type))
    &&& all_below(allpass_delays, ALLPASS_CAPACITY as int)
}

/// Why a reverberator cannot be built from delays and gains that do not fit:
/// first for their number, then for a delay of zero, then for a delay that is
/// too long.
pub open spec fn bank_error(
    reverb_type: ReverbType,
    comb_delays: Seq<usize>,
    comb_gains: Seq<u64>,
    allpass_delays: Seq<usize>,
) -> ConfigError {
    if !sizes_match(reverb_type, comb_delays, comb_gains, allpass_delays) {
        ConfigError::BankSize
    } else if has_zero(comb_delays) || has_zero(allpass_delays) {
        ConfigError::ZeroDelay
    } else {
        ConfigError::DelayTooLong
    }
}

/// What holds of the combs of a wiring: they are as many as the wiring has,
/// each is well formed and positive, and each is damped if the wiring is.
pub open spec fn combs_ok(combs: Seq<CombView>, reverb_type: ReverbType) -> bool {
    &&& combs.len() == reverb_type.combs()
    &&& forall|i: int|
        0 <= i < combs.len() ==> {
            &&& (#[trigger] combs[i]).wf()
            &&& combs[i].use_lpf == reverb_type.damped()
            &&& combs[i].comb_type == CombType::POSITIVE
        }
}

/// What holds of the allpasses of a wiring: they are as many as the wiring
/// has, and each is well formed and has the gain 0.707.
pub open spec fn allpasses_ok(allpasses: Seq<AllPassView>, reverb_type: ReverbType) -> bool {
    &&& allpasses.len() == reverb_type.allpasses()
    &&& forall|j: int|
        0 <= j < allpasses.len() ==> {
            &&& (#[trigger] allpasses[j]).wf()
            &&& allpasses[j].gain == ALLPASS_GAIN
        }
}

/// The views of a bank of combs.
pub open spec fn comb_views(combs: Seq<CombFilter>) -> Seq<CombView> {
    Seq::new(combs.len(), |i: int| combs[i]@)
}

/// The views of a bank of allpasses.
pub open spec fn allpass_views(allpasses: Seq<AllPass>) -> Seq<AllPassView> {
    Seq::new(allpasses.len(), |j: int| allpasses[j]@)
}

/// A reverberator as the contracts see it.
pub struct ReverbView {
    pub combs: Seq<CombView>,
    pub allpasses: Seq<AllPassView>,
    pub decay: u64,
    pub reverb_type: ReverbType,
}

impl ReverbView {
    /// A reverberator as it is built: every filter over a history of
    /// silence, every comb positive, with its delay and its gain, damped
    /// where the wiring is; every allpass with its delay and the gain 0.707.
    pub open spec fn fresh(
        reverb_type: ReverbType,
        decay: u64,
        damp: u64,
        comb_delays: Seq<usize>,
        comb_gains: Seq<u64>,
        allpass_delays: Seq<usize>,
    ) -> ReverbView {
        ReverbView {
            combs: Seq::new(
                comb_delays.len(),
                |i: int|
                    CombView::fresh(
                        comb_delays[i],
                        comb_gains[i],
                        CombType::POSITIVE,
                        reverb_type.damped(),
                        if reverb_type.damped() {
                            clamp_spec(damp, ZERO, MAX_DAMP)
                        } else {
                            ZERO
                        },
                    ),
            ),
            allpasses: Seq::new(
                allpass_delays.len(),
                |j: int| AllPassView::fresh(allpass_delays[j], ALLPASS_GAIN),
            ),
            decay,
            reverb_type,
        }
    }

    /// What every reverberator holds of its view.
    pub open spec fn wf(self) -> bool {
        &&& combs_ok(self.combs, self.reverb_type)
        &&& allpasses_ok(self.allpasses, self.reverb_type)
    }

    /// Whether comb `i` enters the sum with a minus: every second one does,
    /// the first one not.
    pub open spec fn inverted(i: int) -> bool {
        i % 2 == 1
    }

    /// The reverberator after a step of comb `i`.
    pub open spec fn comb_advanced(self, i: int, x: u64, y: u64) -> ReverbView {
        ReverbView { combs: self.combs.update(i, self.combs[i].advanced(x, y)), ..self }
    }

    /// The reverberator after a step of allpass `j`.
    pub open spec fn allpass_advanced(self, j: int, x: u64, y: u64) -> ReverbView {
        ReverbView { allpasses: self.allpasses.update(j, self.allpasses[j].advanced(x, y)), ..self }
    }

    /// The reverberator with every history returned to silence.
    pub open spec fn silenced(self) -> ReverbView {
        ReverbView {
            combs: Seq::new(self.combs.len(), |i: int| self.combs[i].silenced()),
            allpasses: Seq::new(self.allpasses.len(), |j: int| self.allpasses[j].silenced()),
            ..self
        }
    }

    /// Whether no filter of the reverberator has heard or said anything but
    /// silence.
    pub open spec fn is_silent(self) -> bool {
        &&& forall|i: int| 0 <= i < self.combs.len() ==> (#[trigger] self.combs[i]).is_silent()
        &&& forall|j: int|
            0 <= j < self.allpasses.len() ==> (#[trigger] self.allpasses[j]).is_silent()
    }
}

/// A reverberator's state: its filters, which it owns, and its wiring.
pub struct Reverb {
    combs: Vec<CombFilter>,
    allpasses: Vec<AllPass>,
    decay: u64,
    reverb_type: ReverbType,
}

impl View for Reverb {
    type V = ReverbView;

    closed spec fn view(&self) -> ReverbView {
        ReverbView {
            combs: comb_views(self.combs@),
            allpasses: allpass_views(self.allpasses@),
            decay: self.decay,
            reverb_type: self.reverb_type,
        }
    }
}

/// Whether one of the delays is zero.
fn any_zero(delays: &Vec<usize>) -> (r: bool)
    ensures
        r == has_zero(delays@),
{
    let mut i: usize = 0;
    while i < delays.len()
        invariant
            i <= delays@.len(),
            forall|k: int| 0 <= k < i ==> delays@[k] != 0,
        decreases delays@.len() - i,
    {
        if delays[i] == 0 {
            return true;
        }
        i = i + 1;
    }
    false
}

/// Whether every delay is below `limit`.
fn each_below(delays: &Vec<usize>, limit: usize) -> (r: bool)
    ensures
        r == all_below(delays@, limit as int),
{
    let mut i: usize = 0;
    while i < delays.len()
        invariant
            i <= delays@.len(),
            forall|k: int| 0 <= k < i ==> delays@[k] < limit,
        decreases delays@.len() - i,
    {
        if delays[i] >= limit {
            return false;
        }
        i = i + 1;
    }
    true
}

/// Ends a step of the comb at `i`; the others stay as they are.
fn advance_comb_at(
    combs: &mut Vec<CombFilter>,
    reverb_type: ReverbType,
    i: usize,
    x: u64,
    y: u64,
)
    requires
        i < old(combs)@.len(),
        combs_ok(comb_views(old(combs)@), reverb_type),
    ensures
        comb_views(final(combs)@) == comb_views(old(combs)@).update(
            i as int,
            comb_views(old(combs)@)[i as int].advanced(x, y),
        ),
        combs_ok(comb_views(final(combs)@), reverb_type),
    no_unwind
{
    combs[i].advance(x, y);
    assert(comb_views(combs@) =~= comb_views(old(combs)@).update(
        i as int,
        comb_views(old(combs)@)[i as int].advanced(x, y),
    ));
    assert forall|k: int| 0 <= k < combs@.len() implies {
        &&& (#[trigger] comb_views(combs@)[k]).wf()
        &&& comb_views(combs@)[k].use_lpf == reverb_type.damped()
        &&& comb_views(combs@)[k].comb_type == CombType::POSITIVE
    } by {
        assert(comb_views(old(combs)@)[k].wf());
    }
}

/// Returns the comb at `i` to silence; the others stay as they are.
fn reset_comb_at(combs: &mut Vec<CombFilter>, reverb_type: ReverbType, i: usize)
    requires
        i < old(combs)@.len(),
        combs_ok(comb_views(old(combs)@), reverb_type),
    ensures
        comb_views(final(combs)@) == comb_views(old(combs)@).update(
            i as int,
            comb_views(old(combs)@)[i as int].silenced(),
        ),
        combs_ok(comb_views(final(combs)@), reverb_type),
    no_unwind
{
    combs[i].reset();
    assert(comb_views(combs@) =~= comb_views(old(combs)@).update(
        i as int,
        comb_views(old(combs)@)[i as int].silenced(),
    ));
    assert forall|k: int| 0 <= k < combs@.len() implies {
        &&& (#[trigger] comb_views(combs@)[k]).wf()
        &&& comb_views(combs@)[k].use_lpf == reverb_type.damped()
        &&& comb_views(combs@)[k].comb_type == CombType::POSITIVE
    } by {
        assert(comb_views(old(combs)@)[k].wf());
    }
}

/// Ends a step of the allpass at `j`; the others stay as they are.
fn advance_allpass_at(
    allpasses: &mut Vec<AllPass>,
    reverb_type: ReverbType,
    j: usize,
    x: u64,
    y: u64,
)
    requires
        j < old(allpasses)@.len(),
        allpasses_ok(allpass_views(old(allpasses)@), reverb_type),
    ensures
        allpass_views(final(allpasses)@) == allpass_views(old(allpasses)@).update(
            j as int,
            allpass_views(old(allpasses)@)[j as int].advanced(x, y),
        ),
        allpasses_ok(allpass_views(final(allpasses)@), reverb_type),
    no_unwind
{
    allpasses[j].advance(x, y);
    assert(allpass_views(allpasses@) =~= allpass_views(old(allpasses)@).update(
        j as int,
        allpass_views(old(allpasses)@)[j as int].advanced(x, y),
    ));
    assert forall|k: int| 0 <= k < allpasses@.len() implies {
        &&& (#[trigger] allpass_views(allpasses@)[k]).wf()
        &&& allpass_views(allpasses@)[k].gain == ALLPASS_GAIN
    } by {
        assert(allpass_views(old(allpasses)@)[k].wf());
    }
}

/// Returns the allpass at `j` to silence; the others stay as they are.
fn reset_allpass_at(allpasses: &mut Vec<AllPass>, reverb_type: ReverbType, j: usize)
    requires
        j < old(allpasses)@.len(),
        allpasses_ok(allpass_views(old(allpasses)@), reverb_type),
    ensures
        allpass_views(final(allpasses)@) == allpass_views(old(allpasses)@).update(
            j as int,
            allpass_views(old(allpasses)@)[j as int].silenced(),
        ),
        allpasses_ok(allpass_views(final(allpasses)@), reverb_type),
    no_unwind
{
    allpasses[j].reset();
    assert(allpass_views(allpasses@) =~= allpass_views(old(allpasses)@).update(
        j as int,
        allpass_views(old(allpasses)@)[j as int].silenced(),
    ));
    assert forall|k: int| 0 <= k < allpasses@.len() implies {
        &&& (#[trigger] allpass_views(allpasses@)[k]).wf()
        &&& allpass_views(allpasses@)[k].gain == ALLPASS_GAIN
    } by {
        assert(allpass_views(old(allpasses)@)[k].wf());
    }
}

impl Reverb {
    #[verifier::type_invariant]
    spec fn inv(self) -> bool {
        self@.wf()
    }

    /// The damping as a reverberator uses it: held between zero and 0.9999.
    pub fn damping(damp: u64) -> (r: u64)
        ensures
            r == clamp_spec(damp, ZERO, MAX_DAMP),
            clamp_spec(r, ZERO, MAX_DAMP) == r,
    {
        proof {
            lemma_clamp_idempotent(damp, ZERO, MAX_DAMP);
        }
        clamp(damp, ZERO, MAX_DAMP)
    }

    /// A reverberator of the given wiring over histories of silence. The
    /// delays are in samples; the gains are the feedback of the combs, which
    /// each comb clamps to `[0, 1]`. The damping counts in the damped wirings
    /// only, and is held between zero and 0.9999.
    ///
    /// Refused are, in this order: delays or gains that are not as many as
    /// the wiring has filters; a delay of zero; a delay that reaches past the
    /// history of its filter.
    pub fn new(
        reverb_type: ReverbType,
        decay: u64,
        damp: u64,
        comb_delays: &Vec<usize>,
        comb_gains: &Vec<u64>,
        allpass_delays: &Vec<usize>,
    ) -> (r: Result<Reverb, ConfigError>)
        ensures
            r is Ok <==> bank_fits(reverb_type, comb_delays@, comb_gains@, allpass_delays@),
            r matches Ok(reverb) ==> reverb@ == ReverbView::fresh(
                reverb_type,
                decay,
                damp,
                comb_delays@,
                comb_gains@,
                allpass_delays@,
            ) && reverb@.wf(),
            r matches Err(e) ==> e == bank_error(
                reverb_type,
                comb_delays@,
                comb_gains@,
                allpass_delays@,
            ),
    {
        let comb_count = reverb_type.comb_count();
        let allpass_count = reverb_type.allpass_count();
        let damped = reverb_type.is_damped();
        if comb_delays.len() != comb_count || comb_gains.len() != comb_count
            || allpass_delays.len() != allpass_count {
            return Err(ConfigError::BankSize);
        }
        if any_zero(comb_delays) || any_zero(allpass_delays) {
            return Err(ConfigError::ZeroDelay);
        }
        let limit: usize = if damped {
            MAX_INDEX - 1
        } else {
            MAX_INDEX
        };
        if !each_below(comb_delays, limit) || !each_below(allpass_delays, ALLPASS_CAPACITY) {
            return Err(ConfigError::DelayTooLong);
        }
        let lpf_g: u64 = if damped {
            clamp(damp, ZERO, MAX_DAMP)
        } else {
            ZERO
        };
        let ghost target = ReverbView::fresh(
            reverb_type,
            decay,
            damp,
            comb_delays@,
            comb_gains@,
            allpass_delays@,
        );
        let mut combs: Vec<CombFilter> = Vec::new();
        let mut i: usize = 0;
        while i < comb_count
            invariant
                i <= comb_count,
                comb_count == comb_delays@.len(),
                comb_count == comb_gains@.len(),
                comb_count == reverb_type.combs(),
                damped == reverb_type.damped(),
                lpf_g == if damped {
                    clamp_spec(damp, ZERO, MAX_DAMP)
                } else {
                    ZERO
                },
                !has_zero(comb_delays@),
                all_below(comb_delays@, comb_limit(reverb_type)),
                target == ReverbView::fresh(
                    reverb_type,
                    decay,
                    damp,
                    comb_delays@,
                    comb_gains@,
                    allpass_delays@,
                ),
                combs@.len() == i,
                forall|k: int|
                    0 <= k < i ==> (#[trigger] combs@[k])@ == target.combs[k] && combs@[k]@.wf(),
            decreases comb_count - i,
        {
            assert(comb_delays@[i as int] != 0);
            assert(comb_delays@[i as int] < comb_limit(reverb_type));
            assert(delay_fits(comb_delays@[i as int], damped));
            match CombFilter::new(comb_delays[i], comb_gains[i], CombType::POSITIVE, damped, lpf_g) {
                Ok(comb) => {
                    combs.push(comb);
                },
                Err(e) => {
                    return Err(e);
                },
            }
            i = i + 1;
        }
        let mut allpasses: Vec<AllPass> = Vec::new();
        let mut j: usize = 0;
        while j < allpass_count
            invariant
                j <= allpass_count,
                allpass_count == allpass_delays@.len(),
                !has_zero(allpass_delays@),
                all_below(allpass_delays@, ALLPASS_CAPACITY as int),
                target == ReverbView::fresh(
                    reverb_type,
                    decay,
                    damp,
                    comb_delays@,
                    comb_gains@,
                    allpass_delays@,
                ),
                allpasses@.len() == j,
                forall|k: int|
                    0 <= k < j ==> (#[trigger] allpasses@[k])@ == target.allpasses[k]
                        && allpasses@[k]@.wf(),
            decreases allpass_count - j,
        {
            assert(allpass_delays@[j as int] != 0);
            assert(allpass_delays@[j as int] < ALLPASS_CAPACITY);
            match AllPass::new(allpass_delays[j], ALLPASS_GAIN) {
                Ok(allpass) => {
                    allpasses.push(allpass);
                },
                Err(e) => {
                    return Err(e);
                },
            }
            j = j + 1;
        }
        let reverb = Reverb { combs, allpasses, decay, reverb_type };
        assert(reverb@.combs =~= target.combs);
        assert(reverb@.allpasses =~= target.allpasses);
        Ok(reverb)
    }

    /// A comb reverberator: four plain combs, no allpass.
    pub fn new_comb_reverb(decay: u64, comb_delays: &Vec<usize>, comb_gains: &Vec<u64>) -> (r:
        Result<Reverb, ConfigError>)
        ensures
            r is Ok <==> bank_fits(
                ReverbType::CombReverb,
                comb_delays@,
                comb_gains@,
                Seq::<usize>::empty(),
            ),
            r matches Ok(reverb) ==> reverb@ == ReverbView::fresh(
                ReverbType::CombReverb,
                decay,
                ZERO,
                comb_delays@,
                comb_gains@,
                Seq::<usize>::empty(),
            ) && reverb@.wf(),
            r matches Err(e) ==> e == bank_error(
                ReverbType::CombReverb,
                comb_delays@,
                comb_gains@,
                Seq::<usize>::empty(),
            ),
    {
        let allpass_delays: Vec<usize> = Vec::new();
        Reverb::new(ReverbType::CombReverb, decay, ZERO, comb_delays, comb_gains, &allpass_delays)
    }

    /// A Schroeder reverberator: four plain combs and four allpasses.
    pub fn new_schroeder_reverb(
        decay: u64,
        comb_delays: &Vec<usize>,
        comb_gains: &Vec<u64>,
        allpass_delays: &Vec<usize>,
    ) -> (r: Result<Reverb, ConfigError>)
        ensures
            r is Ok <==> bank_fits(
                ReverbType::Schroeder,
                comb_delays@,
                comb_gains@,
                allpass_delays@,
            ),
            r matches Ok(reverb) ==> reverb@ == ReverbView::fresh(
                ReverbType::Schroeder,
                decay,
                ZERO,
                comb_delays@,
                comb_gains@,
                allpass_delays@,
            ) && reverb@.wf(),
            r matches Err(e) ==> e == bank_error(
                ReverbType::Schroeder,
                comb_delays@,
                comb_gains@,
                allpass_delays@,
            ),
    {
        Reverb::new(ReverbType::Schroeder, decay, ZERO, comb_delays, comb_gains, allpass_delays)
    }

    /// A damped comb reverberator: six damped combs, no allpass.
    pub fn new_lpf_comb(
        decay: u64,
        damp: u64,
        comb_delays: &Vec<usize>,
        comb_gains: &Vec<u64>,
    ) -> (r: Result<Reverb, ConfigError>)
        ensures
            r is Ok <==> bank_fits(
                ReverbType::LpfComb,
                comb_delays@,
                comb_gains@,
                Seq::<usize>::empty(),
            ),
            r matches Ok(reverb) ==> reverb@ == ReverbView::fresh(
                ReverbType::LpfComb,
                decay,
                damp,
                comb_delays@,
                comb_gains@,
                Seq::<usize>::empty(),
            ) && reverb@.wf(),
            r matches Err(e) ==> e == bank_error(
                ReverbType::LpfComb,
                comb_delays@,
                comb_gains@,
                Seq::<usize>::empty(),
            ),
    {
        let allpass_delays: Vec<usize> = Vec::new();
        Reverb::new(ReverbType::LpfComb, decay, damp, comb_delays, comb_gains, &allpass_delays)
    }

    /// A Moorer reverberator: six damped combs and one allpass.
    pub fn new_moorer_reverb(
        decay: u64,
        damp: u64,
        comb_delays: &Vec<usize>,
        comb_gains: &Vec<u64>,
        allpass_delays: &Vec<usize>,
    ) -> (r: Result<Reverb, ConfigError>)
        ensures
            r is Ok <==> bank_fits(ReverbType::Moorer, comb_delays@, comb_gains@, allpass_delays@),
            r matches Ok(reverb) ==> reverb@ == ReverbView::fresh(
                ReverbType::Moorer,
                decay,
                damp,
                comb_delays@,
                comb_gains@,
                allpass_delays@,
            ) && reverb@.wf(),
            r matches Err(e) ==> e == bank_error(
                ReverbType::Moorer,
                comb_delays@,
                comb_gains@,
                allpass_delays@,
            ),
    {
        Reverb::new(ReverbType::Moorer, decay, damp, comb_delays, comb_gains, allpass_delays)
    }

    /// The wiring.
    pub fn reverb_type(&self) -> (reverb_type: ReverbType)
        ensures
            reverb_type == self@.reverb_type,
            self@.wf(),
    {
        proof {
            use_type_invariant(self);
        }
        self.reverb_type
    }

    /// The decay time that the reverberator was made for, in seconds.
    pub fn decay(&self) -> (decay: u64)
        ensures
            decay == self@.decay,
    {
        self.decay
    }

    /// Whether comb `i` enters the sum with a minus.
    pub fn comb_inverted(i: usize) -> (r: bool)
        ensures
            r == ReverbView::inverted(i as int),
    {
        i % 2 == 1
    }

    /// Comb `i`.
    pub fn comb(&self, i: usize) -> (comb: &CombFilter)
        requires
            i < self@.reverb_type.combs(),
        ensures
            comb@ == self@.combs[i as int],
            self@.wf(),
    {
        proof {
            use_type_invariant(self);
        }
        &self.combs[i]
    }

    /// Allpass `j`.
    pub fn allpass(&self, j: usize) -> (allpass: &AllPass)
        requires
            j < self@.reverb_type.allpasses(),
        ensures
            allpass@ == self@.allpasses[j as int],
            self@.wf(),
    {
        proof {
            use_type_invariant(self);
        }
        &self.allpasses[j]
    }

    /// The taps of the next step of comb `i`.
    pub fn comb_taps(&self, i: usize) -> (t: CombTaps)
        requires
            i < self@.reverb_type.combs(),
        ensures
            t == self@.combs[i as int].taps(),
    {
        self.comb(i).taps()
    }

    /// The taps of the next step of allpass `j`.
    pub fn allpass_taps(&self, j: usize) -> (t: AllPassTaps)
        requires
            j < self@.reverb_type.allpasses(),
        ensures
            t == self@.allpasses[j as int].taps(),
    {
        self.allpass(j).taps()
    }

    /// Ends a step of comb `i`; every other filter stays as it is.
    pub fn advance_comb(&mut self, i: usize, x: u64, y: u64)
        requires
            i < old(self)@.reverb_type.combs(),
        ensures
            final(self)@ == old(self)@.comb_advanced(i as int, x, y),
            final(self)@.wf(),
    {
        proof {
            use_type_invariant(&*self);
        }
        advance_comb_at(&mut self.combs, self.reverb_type, i, x, y);
    }

    /// Ends a step of allpass `j`; every other filter stays as it is.
    pub fn advance_allpass(&mut self, j: usize, x: u64, y: u64)
        requires
            j < old(self)@.reverb_type.allpasses(),
        ensures
            final(self)@ == old(self)@.allpass_advanced(j as int, x, y),
            final(self)@.wf(),
    {
        proof {
            use_type_invariant(&*self);
        }
        advance_allpass_at(&mut self.allpasses, self.reverb_type, j, x, y);
    }

    /// Returns every history to silence; the wiring and the settings of the
    /// filters stay.
    pub fn reset(&mut self)
        ensures
            final(self)@ == old(self)@.silenced(),
            final(self)@.wf(),
    {
        proof {
            use_type_invariant(&*self);
        }
        let mut i: usize = 0;
        while i < self.combs.len()
            invariant
                i <= self.combs@.len(),
                self@.wf(),
                self@.reverb_type == old(self)@.reverb_type,
                self@.decay == old(self)@.decay,
                self@.allpasses == old(self)@.allpasses,
                self@.combs.len() == old(self)@.combs.len(),
                forall|k: int| 0 <= k < i ==> self@.combs[k] == old(self)@.combs[k].silenced(),
                forall|k: int| i <= k < self@.combs.len() ==> self@.combs[k] == old(self)@.combs[k],
            decreases self.combs@.len() - i,
        {
            reset_comb_at(&mut self.combs, self.reverb_type, i);
            i = i + 1;
        }
        let mut j: usize = 0;
        while j < self.allpasses.len()
            invariant
                j <= self.allpasses@.len(),
                self@.wf(),
                self@.reverb_type == old(self)@.reverb_type,
                self@.decay == old(self)@.decay,
                self@.combs.len() == old(self)@.combs.len(),
                forall|k: int|
                    0 <= k < self@.combs.len() ==> self@.combs[k] == old(self)@.combs[k].silenced(),
                self@.allpasses.len() == old(self)@.allpasses.len(),
                forall|k: int|
                    0 <= k < j ==> self@.allpasses[k] == old(self)@.allpasses[k].silenced(),
                forall|k: int|
                    j <= k < self@.allpasses.len() ==> self@.allpasses[k] == old(
                        self,
                    )@.allpasses[k],
            decreases self.allpasses@.len() - j,
        {
            reset_allpass_at(&mut self.allpasses, self.reverb_type, j);
            j = j + 1;
        }
        assert(self@.combs =~= old(self)@.silenced().combs);
        assert(self@.allpasses =~= old(self)@.silenced().allpasses);
    }
}

impl Clone for Reverb {
    /// A second reverberator with the same filters and wiring.
    fn clone(&self) -> (copy: Self)
        ensures
            copy@ == self@,
    {
        proof {
            use_type_invariant(self);
        }
        let mut combs: Vec<CombFilter> = Vec::new();
        let mut i: usize = 0;
        while i < self.combs.len()
            invariant
                i <= self.combs@.len(),
                combs@.len() == i,
                forall|k: int| 0 <= k < i ==> (#[trigger] combs@[k])@ == self.combs@[k]@,
            decreases self.combs@.len() - i,
        {
            combs.push(self.combs[i].clone());
            i = i + 1;
        }
        let mut allpasses: Vec<AllPass> = Vec::new();
        let mut j: usize = 0;
        while j < self.allpasses.len()
            invariant
                j <= self.allpasses@.len(),
                allpasses@.len() == j,
                forall|k: int| 0 <= k < j ==> (#[trigger] allpasses@[k])@ == self.allpasses@[k]@,
            decreases self.allpasses@.len() - j,
        {
            allpasses.push(self.allpasses[j].clone());
            j = j + 1;
        }
        assert(comb_views(combs@) =~= comb_views(self.combs@));
        assert(allpass_views(allpasses@) =~= allpass_views(self.allpasses@));
        Reverb { combs, allpasses, decay: self.decay, reverb_type: self.reverb_type }
    }
}

/// Delays and gains that fit give a reverberator that is well formed and
/// silent, with as many filters as its wiring has.
pub proof fn lemma_fresh(
    reverb_type: ReverbType,
    decay: u64,
    damp: u64,
    comb_delays: Seq<usize>,
    comb_gains: Seq<u64>,
    allpass_delays: Seq<usize>,
)
    requires
        bank_fits(reverb_type, comb_delays, comb_gains, allpass_delays),
    ensures
        ({
            let v = ReverbView::fresh(
                reverb_type,
                decay,
                damp,
                comb_delays,
                comb_gains,
                allpass_delays,
            );
            &&& v.wf()
            &&& v.is_silent()
            &&& v.combs.len() == reverb_type.combs()
            &&& v.allpasses.len() == reverb_type.allpasses()
        }),
{
    let v = ReverbView::fresh(reverb_type, decay, damp, comb_delays, comb_gains, allpass_delays);
    assert forall|i: int| 0 <= i < v.combs.len() implies {
        &&& (#[trigger] v.combs[i]).wf()
        &&& v.combs[i].use_lpf == reverb_type.damped()
        &&& v.combs[i].comb_type == CombType::POSITIVE
        &&& v.combs[i].is_silent()
    } by {
        assert(comb_delays[i] != 0);
        assert(comb_delays[i] < comb_limit(reverb_type));
        lemma_clamp_idempotent(comb_gains[i], ZERO, ONE);
    }
    assert forall|j: int| 0 <= j < v.allpasses.len() implies {
        &&& (#[trigger] v.allpasses[j]).wf()
        &&& v.allpasses[j].gain == ALLPASS_GAIN
        &&& v.allpasses[j].is_silent()
    } by {
        assert(allpass_delays[j] != 0);
        assert(allpass_delays[j] < ALLPASS_CAPACITY);
    }
}

/// The wirings, filter by filter: the allpasses beside the sum come before
/// those on it, the two chains share no filter, and both lie within the
/// allpasses that the wiring has.
pub proof fn lemma_chains(reverb_type: ReverbType)
    ensures
        reverb_type.side().first + reverb_type.side().count <= reverb_type.series().first,
        reverb_type.series().first + reverb_type.series().count <= reverb_type.allpasses(),
        reverb_type.damped() <==> reverb_type.combs() == 6,
        !reverb_type.damped() <==> reverb_type.combs() == 4,
{
}

/// Silence in, silence out, as far as the history goes: every filter of a
/// silent reverberator hands out silent taps, and a step of any of them that
/// takes silence and gives silence leaves the reverberator as it was. A
/// reverberator that was reset is silent.
pub proof fn lemma_silence(v: ReverbView, i: int, j: int)
    requires
        v.wf(),
    ensures
        v.silenced().is_silent(),
        v.silenced().wf(),
        v.is_silent() && 0 <= i < v.combs.len() ==> v.combs[i].taps() == (CombTaps {
            delayed: ZERO,
            prev_input: ZERO,
            prev_output: ZERO,
        }) && v.comb_advanced(i, ZERO, ZERO) == v,
        v.is_silent() && 0 <= j < v.allpasses.len() ==> v.allpasses[j].taps() == (AllPassTaps {
            input: ZERO,
            output: ZERO,
        }) && v.allpass_advanced(j, ZERO, ZERO) == v,
{
    assert forall|k: int| 0 <= k < v.combs.len() implies {
        &&& (#[trigger] v.silenced().combs[k]).wf()
        &&& v.silenced().combs[k].is_silent()
    } by {
        assert(v.combs[k].wf());
        lemma_comb_silence(v.combs[k]);
    }
    assert forall|k: int| 0 <= k < v.allpasses.len() implies {
        &&& (#[trigger] v.silenced().allpasses[k]).wf()
        &&& v.silenced().allpasses[k].is_silent()
    } by {
        assert(v.allpasses[k].wf());
        lemma_allpass_silence(v.allpasses[k]);
    }
    if v.is_silent() && 0 <= i < v.combs.len() {
        assert(v.combs[i].wf());
        assert(v.combs[i].is_silent());
        lemma_comb_silence(v.combs[i]);
        assert(v.comb_advanced(i, ZERO, ZERO).combs =~= v.combs);
    }
    if v.is_silent() && 0 <= j < v.allpasses.len() {
        assert(v.allpasses[j].wf());
        assert(v.allpasses[j].is_silent());
        lemma_allpass_silence(v.allpasses[j]);
        assert(v.allpass_advanced(j, ZERO, ZERO).allpasses =~= v.allpasses);
    }
}

/// A step of one filter leaves every other filter as it was.
pub proof fn lemma_steps_apart(v: ReverbView, i: int, x: u64, y: u64, k: int, j: int)
    requires
        v.wf(),
        0 <= i < v.combs.len(),
        0 <= k < v.combs.len(),
        k != i,
        0 <= j < v.allpasses.len(),
    ensures
        v.comb_advanced(i, x, y).combs[k] == v.combs[k],
        v.comb_advanced(i, x, y).combs[i] == v.combs[i].advanced(x, y),
        v.comb_advanced(i, x, y).allpasses == v.allpasses,
        v.allpass_advanced(j, x, y).combs == v.combs,
        v.allpass_advanced(j, x, y).allpasses[j] == v.allpasses[j].advanced(x, y),
{
}

/// A step is determined by the reverberator and what is pushed: two
/// reverberators with the same view hand out the same taps, and the same step
/// leads them to the same view.
pub proof fn lemma_determined(a: Reverb, b: Reverb, i: int, j: int, x: u64, y: u64)
    requires
        a@ == b@,
    ensures
        a@.combs[i].taps() == b@.combs[i].taps(),
        a@.allpasses[j].taps() == b@.allpasses[j].taps(),
        a@.comb_advanced(i, x, y) == b@.comb_advanced(i, x, y),
        a@.allpass_advanced(j, x, y) == b@.allpass_advanced(j, x, y),
{
}

} // verus!
