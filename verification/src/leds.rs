//! The LED set and its fade engine: absolute targets computed from
//! percentages, per-fade start brightness, one sample per LED per step, and
//! per-LED failure isolation — a LED whose read or write fails is excluded
//! permanently, and only an empty set makes the whole operation fail. The
//! surrounding binary performs the file reads and writes and reports their
//! outcomes back here.

use vstd::prelude::*;

use crate::config::{Brightness, Config};
use crate::fade;
use crate::sysfs;
use vstd::string::StringSliceAdditionalSpecFns;

verus! {

/// Why an operation on the LED set failed.
#[derive(Clone, Copy, PartialEq, Eq, Structural, Debug)]
pub enum LedError {
    /// Automatic detection found no backlight LED.
    NoneFound,
    /// Every controlled LED has failed and been excluded.
    AllFailed,
}

impl LedError {
    /// A human-readable description of the failure.
    pub fn message(&self) -> (r: &'static str)
        ensures
            *self == LedError::NoneFound ==> r@ == "didn't find any backlight LEDs"@,
            *self == LedError::AllFailed ==> r@ == "all controlled LEDs encountered errors"@,
    {
        match self {
            LedError::NoneFound => "didn't find any backlight LEDs",
            LedError::AllFailed => "all controlled LEDs encountered errors",
        }
    }
}

/// One LED under control: its name, the absolute brightness it fades to
/// when the backlight turns on, and the brightness its current fade started
/// from.
#[derive(Clone, Debug)]
pub struct Led {
    /// The LED's name.
    pub name: String,
    /// The absolute brightness to fade to when turning on.
    pub target_brightness: u32,
    /// The brightness the current fade started from.
    pub start_brightness: u32,
}

impl Led {
    /// A LED whose absolute target is the configured percentage of the
    /// maximum brightness its control interface reports, rounded to the
    /// nearest device-native unit.
    pub fn new(name: String, max_brightness: u32, percentage: &Brightness) -> (r: Led)
        ensures
            r.name@ == name@,
            r.target_brightness == fade::rounded_percent_of(
                percentage.spec_raw() as int,
                max_brightness as int,
            ),
            r.target_brightness <= max_brightness,
            r.start_brightness == 0,
    {
        let target = fade::target_brightness(percentage.raw(), max_brightness);
        Led { name, target_brightness: target, start_brightness: 0 }
    }
}

/// The brightness a LED heads toward: its target when turning on, zero when
/// turning off.
pub open spec fn spec_goal(led: Led, on: bool) -> int {
    if on {
        led.target_brightness as int
    } else {
        0
    }
}

/// The LEDs that survive a round of brightness reads: those whose read
/// returned a value, in their original order, each with its start
/// brightness set to the value read. A LED whose read failed is gone.
pub open spec fn spec_retain_reads(leds: Seq<Led>, reads: Seq<Option<u32>>) -> Seq<Led>
    decreases leds.len(),
{
    if leds.len() == 0 || reads.len() == 0 {
        Seq::empty()
    } else {
        let prefix = spec_retain_reads(leds.drop_last(), reads.drop_last());
        match reads.last() {
            Some(v) => prefix.push(
                (Led {
                    name: leds.last().name,
                    target_brightness: leds.last().target_brightness,
                    start_brightness: v,
                }),
            ),
            None => prefix,
        }
    }
}

/// The LEDs that survive a round of brightness writes: those whose write
/// succeeded, unchanged and in their original order.
pub open spec fn spec_retain_ok(leds: Seq<Led>, ok: Seq<bool>) -> Seq<Led>
    decreases leds.len(),
{
    if leds.len() == 0 || ok.len() == 0 {
        Seq::empty()
    } else {
        let prefix = spec_retain_ok(leds.drop_last(), ok.drop_last());
        if ok.last() {
            prefix.push(leds.last())
        } else {
            prefix
        }
    }
}

/// The set of controlled LEDs and the shared fade duration.
pub struct Leds {
    fade_ms: u32,
    leds: Vec<Led>,
}

impl Leds {
    /// The fade duration is positive.
    pub open spec fn wf(self) -> bool {
        self.spec_fade_ms() >= 1
    }

    /// The fade duration, in milliseconds.
    pub closed spec fn spec_fade_ms(self) -> u32 {
        self.fade_ms
    }

    /// The controlled LEDs, in order.
    pub closed spec fn spec_leds(self) -> Seq<Led> {
        self.leds@
    }

    /// A set over the given LEDs with the given fade duration.
    pub fn from_leds(fade_ms: u32, leds: Vec<Led>) -> (r: Leds)
        requires
            fade_ms >= 1,
        ensures
            r.wf(),
            r.spec_fade_ms() == fade_ms,
            r.spec_leds() == leds@,
    {
        Leds { fade_ms, leds }
    }

    /// How many LEDs are still under control.
    pub fn len(&self) -> (r: usize)
        ensures
            r == self.spec_leds().len(),
    {
        self.leds.len()
    }

    /// The name of the LED at this position.
    pub fn name_at(&self, i: usize) -> (r: &String)
        requires
            i < self.spec_leds().len(),
        ensures
            r@ == self.spec_leds()[i as int].name@,
    {
        &self.leds[i].name
    }

    /// Starts a fade: records each LED's current brightness, as just read by
    /// the caller, as the fade's starting point. A LED whose read failed is
    /// excluded permanently; the call fails exactly when no LED is left.
    pub fn begin_fade(&mut self, reads: &Vec<Option<u32>>) -> (r: Result<(), LedError>)
        requires
            reads@.len() == old(self).spec_leds().len(),
        ensures
            final(self).spec_fade_ms() == old(self).spec_fade_ms(),
            final(self).spec_leds() == spec_retain_reads(old(self).spec_leds(), reads@),
            r is Ok <==> final(self).spec_leds().len() > 0,
            r is Err ==> r == Err::<(), LedError>(LedError::AllFailed),
    {
        let ghost orig = self.leds@;
        let n = self.leds.len();
        let mut out: Vec<Led> = Vec::new();
        let mut i: usize = 0;
        while i < n
            invariant
                i <= n,
                n == self.leds.len(),
                self.leds@ == orig,
                reads@.len() == n,
                out@ == spec_retain_reads(orig.subrange(0, i as int), reads@.subrange(0, i as int)),
            decreases n - i,
        {
            proof {
                assert(orig.subrange(0, i + 1).drop_last() =~= orig.subrange(0, i as int));
                assert(reads@.subrange(0, i + 1).drop_last() =~= reads@.subrange(0, i as int));
                assert(orig.subrange(0, i + 1).last() == orig[i as int]);
                assert(reads@.subrange(0, i + 1).last() == reads@[i as int]);
            }
            match reads[i] {
                Some(v) => {
                    let led = &self.leds[i];
                    out.push(
                        Led {
                            name: led.name.clone(),
                            target_brightness: led.target_brightness,
                            start_brightness: v,
                        },
                    );
                    proof {
                        assert(out@.last().name@ == orig[i as int].name@);
                        assert(out@ =~= spec_retain_reads(
                            orig.subrange(0, i + 1),
                            reads@.subrange(0, i + 1),
                        ));
                    }
                },
                None => {},
            }
            i += 1;
        }
        proof {
            assert(orig.subrange(0, n as int) =~= orig);
            assert(reads@.subrange(0, n as int) =~= reads@);
        }
        let empty = out.len() == 0;
        self.leds = out;
        if empty {
            Err(LedError::AllFailed)
        } else {
            Ok(())
        }
    }

    /// Whether the fade that started `elapsed_ms` ago is over: the time
    /// fraction has reached one, so the most recent samples were exactly the
    /// targets.
    pub fn fade_done(&self, elapsed_ms: u64) -> (r: bool)
        ensures
            r == (elapsed_ms >= self.spec_fade_ms()),
    {
        elapsed_ms >= self.fade_ms as u64
    }

    /// The brightness each LED should show `elapsed_ms` into a fade toward
    /// its on-target (or toward zero when turning off): one value per LED,
    /// in order, linear in the elapsed wall-time fraction and rounded to the
    /// nearest device-native unit.
    pub fn fade_values(&self, on: bool, elapsed_ms: u64) -> (r: Vec<u32>)
        requires
            self.wf(),
        ensures
            r@.len() == self.spec_leds().len(),
            forall|i: int|
                0 <= i < r@.len() ==> r@[i] == fade::fade_sample(
                    self.spec_leds()[i].start_brightness as int,
                    spec_goal(self.spec_leds()[i], on),
                    elapsed_ms as int,
                    self.spec_fade_ms() as int,
                ),
            elapsed_ms >= self.spec_fade_ms() ==> forall|i: int|
                0 <= i < r@.len() ==> r@[i] == spec_goal(self.spec_leds()[i], on),
    {
        let n = self.leds.len();
        let mut out: Vec<u32> = Vec::new();
        let mut i: usize = 0;
        while i < n
            invariant
                i <= n,
                n == self.leds.len(),
                self.wf(),
                out@.len() == i,
                forall|j: int|
                    0 <= j < i ==> out@[j] == fade::fade_sample(
                        self.spec_leds()[j].start_brightness as int,
                        spec_goal(self.spec_leds()[j], on),
                        elapsed_ms as int,
                        self.spec_fade_ms() as int,
                    ),
                elapsed_ms >= self.spec_fade_ms() ==> forall|j: int|
                    0 <= j < i ==> out@[j] == spec_goal(self.spec_leds()[j], on),
            decreases n - i,
        {
            let led = &self.leds[i];
            let target: u32 = if on {
                led.target_brightness
            } else {
                0
            };
            let v = fade::sample_brightness(
                led.start_brightness,
                target,
                elapsed_ms,
                self.fade_ms as u64,
            );
            out.push(v);
            i += 1;
        }
        out
    }

    /// Applies the outcome of writing one brightness value to each LED: a
    /// LED whose write failed is excluded permanently; the call fails
    /// exactly when no LED is left.
    pub fn apply_write_results(&mut self, ok: &Vec<bool>) -> (r: Result<(), LedError>)
        requires
            ok@.len() == old(self).spec_leds().len(),
        ensures
            final(self).spec_fade_ms() == old(self).spec_fade_ms(),
            final(self).spec_leds() == spec_retain_ok(old(self).spec_leds(), ok@),
            r is Ok <==> final(self).spec_leds().len() > 0,
            r is Err ==> r == Err::<(), LedError>(LedError::AllFailed),
    {
        let ghost orig = self.leds@;
        let n = self.leds.len();
        let mut out: Vec<Led> = Vec::new();
        let mut i: usize = 0;
        while i < n
            invariant
                i <= n,
                n == self.leds.len(),
                self.leds@ == orig,
                ok@.len() == n,
                out@ == spec_retain_ok(orig.subrange(0, i as int), ok@.subrange(0, i as int)),
            decreases n - i,
        {
            proof {
                assert(orig.subrange(0, i + 1).drop_last() =~= orig.subrange(0, i as int));
                assert(ok@.subrange(0, i + 1).drop_last() =~= ok@.subrange(0, i as int));
                assert(orig.subrange(0, i + 1).last() == orig[i as int]);
                assert(ok@.subrange(0, i + 1).last() == ok@[i as int]);
            }
            if ok[i] {
                let led = &self.leds[i];
                out.push(
                    Led {
                        name: led.name.clone(),
                        target_brightness: led.target_brightness,
                        start_brightness: led.start_brightness,
                    },
                );
                proof {
                    assert(out@.last().name@ == orig[i as int].name@);
                    assert(out@.last().target_brightness == orig[i as int].target_brightness);
                    assert(out@.last().start_brightness == orig[i as int].start_brightness);
                    assert(out@ =~= spec_retain_ok(orig.subrange(0, i + 1), ok@.subrange(0, i + 1)));
                }
            }
            i += 1;
        }
        proof {
            assert(orig.subrange(0, n as int) =~= orig);
            assert(ok@.subrange(0, n as int) =~= ok@);
        }
        let empty = out.len() == 0;
        self.leds = out;
        if empty {
            Err(LedError::AllFailed)
        } else {
            Ok(())
        }
    }
}

/// One LED the configuration asks for: its name and the percentage it
/// should light to.
#[derive(Clone, Debug)]
pub struct LedRequest {
    /// The LED's name.
    pub name: String,
    /// The brightness percentage to light it to.
    pub percentage: Brightness,
}

/// The LEDs the configuration names, each with its own brightness override
/// or the general default where none is given. The caller opens each one,
/// reads its maximum brightness, and builds the set with `Led::new`. An
/// empty result means the configuration asks for automatic detection.
pub fn plan_from_config(config: &Config) -> (r: Vec<LedRequest>)
    ensures
        r@.len() == config.leds@.len(),
        forall|i: int|
            0 <= i < r@.len() ==> r@[i].name@ == config.leds@[i].name@ && r@[i].percentage == (
            match config.leds@[i].brightness {
                Some(b) => b,
                None => config.general.spec_brightness(),
            }),
{
    let n = config.leds.len();
    let mut out: Vec<LedRequest> = Vec::new();
    let mut i: usize = 0;
    while i < n
        invariant
            i <= n,
            n == config.leds@.len(),
            out@.len() == i,
            forall|j: int|
                0 <= j < i ==> out@[j].name@ == config.leds@[j].name@ && out@[j].percentage == (
                match config.leds@[j].brightness {
                    Some(b) => b,
                    None => config.general.spec_brightness(),
                }),
        decreases n - i,
    {
        let led = &config.leds[i];
        let percentage = match &led.brightness {
            Some(b) => *b,
            None => config.general.brightness(),
        };
        out.push(LedRequest { name: led.name.clone(), percentage });
        i += 1;
    }
    out
}

/// Whether a LED class entry name marks a keyboard backlight.
pub open spec fn spec_is_backlight(name: Seq<char>) -> bool {
    sysfs::spec_contains_bytes(vstd::utf8::encode_utf8(name), "kbd_backlight".spec_bytes())
}

/// The names as character sequences, in order.
pub open spec fn spec_views(entries: Seq<String>) -> Seq<Seq<char>> {
    entries.map_values(|s: String| s@)
}

/// The entries of a LED class scan that name a keyboard backlight, in scan
/// order.
pub open spec fn spec_backlight_selection(entries: Seq<Seq<char>>) -> Seq<Seq<char>>
    decreases entries.len(),
{
    if entries.len() == 0 {
        Seq::empty()
    } else {
        let prefix = spec_backlight_selection(entries.drop_last());
        if spec_is_backlight(entries.last()) {
            prefix.push(entries.last())
        } else {
            prefix
        }
    }
}

/// Automatic backlight detection: of all the entries found in the LED
/// class namespace, exactly those whose name contains the canonical
/// keyboard-backlight marker are kept, in order; finding none is an error.
pub fn auto_select(entries: &Vec<String>) -> (r: Result<Vec<String>, LedError>)
    ensures
        spec_backlight_selection(spec_views(entries@)).len() > 0 ==> (r matches Ok(v)
            && spec_views(v@) == spec_backlight_selection(spec_views(entries@))),
        spec_backlight_selection(spec_views(entries@)).len() == 0 ==> r == Err::<
            Vec<String>,
            LedError,
        >(LedError::NoneFound),
{
    let n = entries.len();
    let mut out: Vec<String> = Vec::new();
    let mut i: usize = 0;
    while i < n
        invariant
            i <= n,
            n == entries@.len(),
            spec_views(out@) == spec_backlight_selection(spec_views(entries@.subrange(0, i as int))),
        decreases n - i,
    {
        proof {
            assert(spec_views(entries@.subrange(0, i + 1)).drop_last() =~= spec_views(
                entries@.subrange(0, i as int),
            ));
            assert(spec_views(entries@.subrange(0, i + 1)).last() == entries@[i as int]@);
        }
        if sysfs::is_backlight_name(entries[i].as_str()) {
            out.push(entries[i].clone());
            proof {
                assert(spec_views(out@) =~= spec_backlight_selection(
                    spec_views(entries@.subrange(0, i + 1)),
                ));
            }
        } else {
            proof {
                assert(spec_views(out@) =~= spec_backlight_selection(
                    spec_views(entries@.subrange(0, i + 1)),
                ));
            }
        }
        i += 1;
    }
    proof {
        assert(entries@.subrange(0, n as int) =~= entries@);
    }
    if out.len() == 0 {
        Err(LedError::NoneFound)
    } else {
        Ok(out)
    }
}

/// Failure isolation across one round of writes: every LED whose write
/// succeeded is still in the set, every LED that remains is one whose write
/// succeeded, and a round in which every write failed leaves the set empty.
pub proof fn lemma_failure_isolation(leds: Seq<Led>, ok: Seq<bool>)
    requires
        leds.len() == ok.len(),
    ensures
        forall|i: int|
            0 <= i < leds.len() && ok[i] ==> #[trigger] spec_retain_ok(leds, ok).contains(leds[i]),
        forall|j: int|
            0 <= j < spec_retain_ok(leds, ok).len() ==> exists|i: int|
                0 <= i < leds.len() && ok[i] && leds[i] == #[trigger] spec_retain_ok(leds, ok)[j],
        (forall|i: int| 0 <= i < ok.len() ==> !ok[i]) ==> spec_retain_ok(leds, ok).len() == 0,
    decreases leds.len(),
{
    if leds.len() > 0 {
        let lp = leds.drop_last();
        let okp = ok.drop_last();
        lemma_failure_isolation(lp, okp);
        let prefix = spec_retain_ok(lp, okp);
        assert forall|i: int|
            0 <= i < leds.len() && ok[i] implies #[trigger] spec_retain_ok(leds, ok).contains(
            leds[i],
        ) by {
            if i < leds.len() - 1 {
                assert(lp[i] == leds[i] && okp[i] == ok[i]);
                assert(prefix.contains(leds[i]));
                let k = choose|k: int| 0 <= k < prefix.len() && prefix[k] == leds[i];
                assert(spec_retain_ok(leds, ok)[k] == leds[i]);
            } else {
                assert(spec_retain_ok(leds, ok).last() == leds[i]);
            }
        }
        assert forall|j: int| 0 <= j < spec_retain_ok(leds, ok).len() implies exists|i: int|
            0 <= i < leds.len() && ok[i] && leds[i] == #[trigger] spec_retain_ok(leds, ok)[j] by {
            if j < prefix.len() {
                assert(spec_retain_ok(leds, ok)[j] == prefix[j]);
                let i = choose|i: int| 0 <= i < lp.len() && okp[i] && lp[i] == prefix[j];
                assert(0 <= i < leds.len() && ok[i] && leds[i] == spec_retain_ok(leds, ok)[j]);
            } else {
                assert(ok.last());
                assert(spec_retain_ok(leds, ok)[j] == leds.last());
                let i = leds.len() - 1;
                assert(0 <= i < leds.len() && ok[i] && leds[i] == spec_retain_ok(leds, ok)[j]);
            }
        }
    }
}

} // verus!
