//! Zoom levels.

use crate::text::{
    all_digits, read_back, signed_decimal, signed_numbers_read_back, signed_numeral, texts,
};
use vstd::prelude::*;

verus! {

/// How a page is scaled.
#[derive(Clone, Copy, Debug, PartialEq, Eq, Structural)]
pub enum Zoom {
    FitBoth,
    FitHeight,
    FitWidth,
    Percent(i16),
}

/// The smallest percentage that zooming reaches.
pub const MIN_PERCENT: i16 = 25;

/// The largest percentage that zooming reaches.
pub const MAX_PERCENT: i16 = 500;

/// The percentage of one zoom step.
pub const STEP_PERCENT: i16 = 25;

/// The percentage from which a fitted page starts to zoom.
pub const FITTED_PERCENT: i16 = 100;

/// `n`, moved into the range of percentages.
pub open spec fn clamped(n: int) -> int {
    if n < MIN_PERCENT {
        MIN_PERCENT as int
    } else if n > MAX_PERCENT {
        MAX_PERCENT as int
    } else {
        n
    }
}

impl Zoom {
    /// Whether a percentage lies in its range.
    pub open spec fn in_range(self) -> bool {
        self matches Zoom::Percent(percent) ==> MIN_PERCENT <= percent <= MAX_PERCENT
    }

    /// The percentage that a zoom step starts from.
    pub open spec fn base(self) -> int {
        match self {
            Zoom::Percent(percent) => percent as int,
            _ => FITTED_PERCENT as int,
        }
    }

    /// Whether the percentage `steps` steps away can be counted without leaving `i16`.
    pub open spec fn steps_fit(self, steps: int) -> bool {
        i16::MIN <= self.base() + STEP_PERCENT * steps <= i16::MAX
    }

    /// The zoom after `steps` steps, inwards where `steps` is positive.
    pub open spec fn moved(self, steps: int) -> Zoom {
        Zoom::Percent(clamped(self.base() + STEP_PERCENT * steps) as i16)
    }

    /// The percentage that a zoom step starts from.
    pub fn percent(self) -> (percent: i16)
        ensures
            percent == self.base(),
    {
        match self {
            Zoom::Percent(percent) => percent,
            _ => FITTED_PERCENT,
        }
    }

    /// Tells whether `steps` steps can be counted.
    pub fn can_step(self, steps: i32) -> (fits: bool)
        ensures
            fits == self.steps_fit(steps as int),
    {
        let target: i64 = self.percent() as i64 + 25 * (steps as i64);
        -0x8000 <= target && target <= 0x7fff
    }

    /// Zooms by `steps` steps.
    pub fn step(self, steps: i32) -> (zoom: Zoom)
        requires
            self.steps_fit(steps as int),
        ensures
            zoom == self.moved(steps as int),
            zoom.in_range(),
    {
        let mut percent: i16 = self.percent();
        let mut left: i32 = steps;
        while left >= 1
            invariant
                percent + STEP_PERCENT * left == self.base() + STEP_PERCENT * steps,
                self.steps_fit(steps as int),
                left >= 0 || left == steps,
            decreases left,
        {
            percent += 25;
            left -= 1;
        }
        while left <= -1
            invariant
                percent + STEP_PERCENT * left == self.base() + STEP_PERCENT * steps,
                self.steps_fit(steps as int),
                left <= 0,
            decreases -left,
        {
            percent -= 25;
            left += 1;
        }
        if percent < MIN_PERCENT {
            Zoom::Percent(MIN_PERCENT)
        } else if percent > MAX_PERCENT {
            Zoom::Percent(MAX_PERCENT)
        } else {
            Zoom::Percent(percent)
        }
    }

    /// The zoom levels offered: the three ways to fit a page, then the percentages in steps.
    pub open spec fn offered() -> Seq<Zoom> {
        Seq::new(
            23,
            |i: int|
                if i == 0 {
                    Zoom::FitBoth
                } else if i == 1 {
                    Zoom::FitHeight
                } else if i == 2 {
                    Zoom::FitWidth
                } else {
                    Zoom::Percent((STEP_PERCENT * (i - 2)) as i16)
                },
        )
    }

    /// The zoom levels offered.
    pub fn all() -> (all: Vec<Zoom>)
        ensures
            all@ == Self::offered(),
    {
        let all = vec![
            Zoom::FitBoth,
            Zoom::FitHeight,
            Zoom::FitWidth,
            Zoom::Percent(25),
            Zoom::Percent(50),
            Zoom::Percent(75),
            Zoom::Percent(100),
            Zoom::Percent(125),
            Zoom::Percent(150),
            Zoom::Percent(175),
            Zoom::Percent(200),
            Zoom::Percent(225),
            Zoom::Percent(250),
            Zoom::Percent(275),
            Zoom::Percent(300),
            Zoom::Percent(325),
            Zoom::Percent(350),
            Zoom::Percent(375),
            Zoom::Percent(400),
            Zoom::Percent(425),
            Zoom::Percent(450),
            Zoom::Percent(475),
            Zoom::Percent(500),
        ];
        assert(all@ =~= Self::offered());
        all
    }

    /// The place of a level among those offered, if it is offered.
    pub open spec fn place(self) -> Option<int> {
        match self {
            Zoom::FitBoth => Some(0),
            Zoom::FitHeight => Some(1),
            Zoom::FitWidth => Some(2),
            Zoom::Percent(percent) => if MIN_PERCENT <= percent <= MAX_PERCENT && percent
                % STEP_PERCENT == 0 {
                Some(percent / STEP_PERCENT + 2)
            } else {
                None
            },
        }
    }

    /// The place of a level among those offered.
    pub fn position(self) -> (position: Option<usize>)
        ensures
            position matches Some(i) ==> self.place() == Some(i as int) && i < Self::offered().len()
                && Self::offered()[i as int] == self,
            position is None ==> self.place() is None && !Self::offered().contains(self),
    {
        let all = Self::all();
        let mut i: usize = 0;
        while i < all.len()
            invariant
                all@ == Self::offered(),
                i <= all.len(),
                forall|j: int| 0 <= j < i ==> all@[j] != self,
            decreases all.len() - i,
        {
            if all[i] == self {
                return Some(i);
            }
            i += 1;
        }
        proof {
            if let Some(p) = self.place() {
                assert(all@[p] == self);
            }
        }
        None
    }

    /// The name of a level.
    pub open spec fn name(self) -> Seq<char> {
        match self {
            Zoom::FitBoth => "Fit width and height"@,
            Zoom::FitHeight => "Fit height"@,
            Zoom::FitWidth => "Fit width"@,
            Zoom::Percent(percent) => signed_decimal(percent as int) + "%"@,
        }
    }

    /// The name of a level.
    pub fn to_string(&self) -> (name: String)
        ensures
            name@ == self.name(),
    {
        match self {
            Zoom::FitBoth => "Fit width and height".to_owned(),
            Zoom::FitHeight => "Fit height".to_owned(),
            Zoom::FitWidth => "Fit width".to_owned(),
            Zoom::Percent(percent) => {
                let mut name = signed_numeral(*percent as i32);
                name.append("%");
                name
            },
        }
    }

    /// The names of the levels offered.
    pub open spec fn offered_names() -> Seq<Seq<char>> {
        Self::offered().map_values(|zoom: Zoom| zoom.name())
    }

    /// The names of the levels offered.
    pub fn names() -> (names: Vec<String>)
        ensures
            texts(names@) == Self::offered_names(),
    {
        let all = Self::all();
        let mut names: Vec<String> = Vec::new();
        let mut i: usize = 0;
        while i < all.len()
            invariant
                all@ == Self::offered(),
                i <= all.len(),
                names.len() == i,
                forall|j: int| 0 <= j < i ==> (#[trigger] names@[j])@ == all@[j].name(),
            decreases all.len() - i,
        {
            names.push(all[i].to_string());
            i += 1;
        }
        assert(texts(names@) =~= Self::offered_names());
        names
    }
}

/// Zooming always ends within the range of percentages.
pub proof fn zooming_stays_in_range(zoom: Zoom, steps: int)
    ensures
        zoom.moved(steps).in_range(),
{
}

/// One step in and one step out again give the percentage back, short of the upper limit.
pub proof fn in_and_out_cancel(percent: i16)
    requires
        MIN_PERCENT <= percent <= MAX_PERCENT - STEP_PERCENT,
    ensures
        Zoom::Percent(percent).moved(1).moved(-1) == Zoom::Percent(percent),
{
}

/// One step out and one step in again give the percentage back, short of the lower limit.
pub proof fn out_and_in_cancel(percent: i16)
    requires
        MIN_PERCENT + STEP_PERCENT <= percent <= MAX_PERCENT,
    ensures
        Zoom::Percent(percent).moved(-1).moved(1) == Zoom::Percent(percent),
{
}

/// Zooming from a level on offer ends on a level on offer.
pub proof fn steps_stay_on_offer(zoom: Zoom, steps: int)
    requires
        zoom.place() is Some,
    ensures
        zoom.moved(steps).place() is Some,
{
}

/// Every level offered is found at its own place: the list holds no level twice.
pub proof fn offered_level_has_its_place(i: int)
    requires
        0 <= i < Zoom::offered().len(),
    ensures
        Zoom::offered()[i].place() == Some(i),
        Zoom::offered()[i].in_range(),
{
}

/// Each step moves a percentage by 25, up to 500 and down to 25, where it stays. A page that
/// is fitted moves as one at 100 percent.
pub proof fn each_step_counts(zoom: Zoom, steps: int)
    ensures
        ({
            let from: int = match zoom {
                Zoom::Percent(percent) => percent as int,
                _ => 100,
            };
            let far = from + 25 * steps;
            &&& zoom.moved(steps) is Percent
            &&& 25 <= far <= 500 ==> zoom.moved(steps)->Percent_0 == far
            &&& far <= 25 ==> zoom.moved(steps) == Zoom::Percent(25)
            &&& far >= 500 ==> zoom.moved(steps) == Zoom::Percent(500)
        }),
{
}

/// What zooming by steps gives is what [`each_step_counts`] says.
pub proof fn stepping_counts(zoom: Zoom, steps: i32, result: Zoom)
    requires
        call_ensures(Zoom::step, (zoom, steps), result),
    ensures
        ({
            let from: int = match zoom {
                Zoom::Percent(percent) => percent as int,
                _ => 100,
            };
            let far = from + 25 * steps;
            &&& result is Percent
            &&& 25 <= far <= 500 ==> result->Percent_0 == far
            &&& far <= 25 ==> result == Zoom::Percent(25)
            &&& far >= 500 ==> result == Zoom::Percent(500)
        }),
{
}

/// Steps can be counted exactly where the percentage that they lead to, before it is limited,
/// has sixteen bits. From a level on offer that is so for a thousand steps either way.
pub proof fn countable_steps(zoom: Zoom, steps: i32, fits: bool)
    requires
        call_ensures(Zoom::can_step, (zoom, steps), fits),
    ensures
        ({
            let from: int = match zoom {
                Zoom::Percent(percent) => percent as int,
                _ => 100,
            };
            &&& fits <==> -32768 <= from + 25 * steps <= 32767
            &&& 25 <= from <= 500 && -1000 <= steps <= 1000 ==> fits
        }),
{
}

/// As long as no limit is met, taking steps one after the other leads where taking them at
/// once does.
pub proof fn steps_add_up(percent: i16, first: int, second: int)
    requires
        25 <= percent + 25 * first <= 500,
        25 <= percent + 25 * first + 25 * second <= 500,
    ensures
        Zoom::Percent(percent).moved(first).moved(second) == Zoom::Percent(percent).moved(
            first + second,
        ),
{
}

/// The menu offers the three ways to fit a page, and then every multiple of 25 percent from 25
/// to 500, in this order.
pub proof fn offered_levels(all: Vec<Zoom>)
    requires
        call_ensures(Zoom::all, (), all),
    ensures
        all@ == Zoom::offered(),
        all@.len() == 23,
        all@[0] == Zoom::FitBoth,
        all@[1] == Zoom::FitHeight,
        all@[2] == Zoom::FitWidth,
        forall|i: int| 3 <= i < 23 ==> (#[trigger] all@[i]) is Percent && all@[i]->Percent_0 == 25
            * (i - 2),
{
}

/// A level on offer is found at its place in the menu, and another level is not found.
pub proof fn level_is_found_at_its_place(zoom: Zoom, position: Option<usize>)
    requires
        call_ensures(Zoom::position, (zoom,), position),
    ensures
        zoom == Zoom::FitBoth ==> position == Some(0usize),
        zoom == Zoom::FitHeight ==> position == Some(1usize),
        zoom == Zoom::FitWidth ==> position == Some(2usize),
        zoom matches Zoom::Percent(percent) ==> if 25 <= percent <= 500 && percent % 25 == 0 {
            position matches Some(i) && 25 * (i - 2) == percent
        } else {
            position is None
        },
{
}

/// A percentage is named by its number and a percent sign, a way to fit by what it fits.
pub proof fn level_names(zoom: Zoom, name: String)
    requires
        call_ensures(Zoom::to_string, (&zoom,), name),
    ensures
        name@ == zoom.name(),
        zoom == Zoom::FitBoth ==> name@ == "Fit width and height"@,
        zoom == Zoom::FitHeight ==> name@ == "Fit height"@,
        zoom == Zoom::FitWidth ==> name@ == "Fit width"@,
        zoom matches Zoom::Percent(percent) ==> {
            &&& name@ == signed_decimal(percent as int) + "%"@
            &&& name@.last() == '%'
            &&& percent >= 0 ==> all_digits(name@.drop_last()) && read_back(name@.drop_last())
                == percent
        },
{
    if let Zoom::Percent(percent) = zoom {
        reveal_strlit("%");
        signed_numbers_read_back(percent as int);
        assert(name@.drop_last() =~= signed_decimal(percent as int));
    }
}

/// The menu shows each level by its name.
pub proof fn levels_are_shown_by_name(names: Vec<String>, i: int)
    requires
        call_ensures(Zoom::names, (), names),
    ensures
        names@.len() == 23,
        0 <= i < 23 ==> names@[i]@ == Zoom::offered()[i].name(),
{
    assert(texts(names@).len() == names@.len());
    if 0 <= i < 23 {
        assert(texts(names@)[i] == names@[i]@);
    }
}

} // verus!
