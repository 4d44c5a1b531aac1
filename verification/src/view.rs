//! The view builder: from the state, the viewport and the configuration to
//! text blocks and the rectangles they are drawn in.

use crate::layout::{split_vertical, vertical_bands, Constraint, Rect};
use crate::text::{decimal, push_decimal};
use vstd::prelude::*;
use vstd::string::*;
use vstd::view::View as _;

verus! {

/// How a text block sits in its rectangle, left to right.
#[derive(Clone, Copy, Debug, PartialEq, Eq, Structural)]
pub enum Alignment {
    Left,
    Center,
    Right,
}

/// One line of text to draw, with its horizontal alignment.
#[derive(Clone, Debug, PartialEq, Eq)]
pub struct TextBlock {
    pub text: String,
    pub alignment: Alignment,
}

/// What a drawn widget is, as mathematics: its text, its alignment and its
/// rectangle.
pub struct Placed {
    pub text: Seq<char>,
    pub alignment: Alignment,
    pub area: Rect,
}

/// The widgets of a frame, each as its text, alignment and rectangle.
pub open spec fn frame_view(widgets: Seq<(TextBlock, Rect)>) -> Seq<Placed> {
    Seq::new(
        widgets.len(),
        |i: int| Placed { text: widgets[i].0.text@, alignment: widgets[i].0.alignment, area: widgets[i].1 },
    )
}

/// What the home screen is built from.
#[derive(Clone, Copy, Debug, PartialEq, Eq)]
pub struct HomeProps {
    pub counter: isize,
    pub screen_size: Rect,
    pub increment_amount: isize,
}

/// A screen of the application, with what it shows.
#[derive(Clone, Copy, Debug, PartialEq, Eq)]
pub enum View {
    Home(HomeProps),
}

/// The number of text lines of the home screen.
pub const HOME_LINES: usize = 5;

/// The share of the viewport, in percent, of the padding above the text:
/// fifty less three hundred over the height, and zero where that is not
/// positive or the height is zero.
pub open spec fn flex_percent(height: int) -> int {
    if height <= 0 || 300int / height >= 50 {
        0
    } else {
        50 - 300int / height
    }
}

/// The bands of the home screen, top to bottom: the padding, two rows for the
/// counter, and one row for each of the four hints.
pub open spec fn home_constraints(height: int) -> Seq<Constraint> {
    seq![
        Constraint::Percentage(flex_percent(height) as u16),
        Constraint::Length(2),
        Constraint::Length(1),
        Constraint::Length(1),
        Constraint::Length(1),
        Constraint::Length(1),
    ]
}

/// The text lines of the home screen, top to bottom.
pub open spec fn home_lines(counter: int, increment_amount: int) -> Seq<Seq<char>> {
    seq![
        "Counter: "@ + decimal(counter),
        "Hit space to increment counter by "@ + decimal(increment_amount),
        "Hit Left Arrow to decrement"@,
        "Hit Right Arrow to increment"@,
        "Hit q to quit"@,
    ]
}

impl View {
    /// The viewport that the view fills.
    pub open spec fn area(self) -> Rect {
        match self {
            View::Home(props) => props.screen_size,
        }
    }

    /// The constraints that the viewport is split under.
    pub open spec fn constraints(self) -> Seq<Constraint> {
        match self {
            View::Home(props) => home_constraints(props.screen_size.height as int),
        }
    }

    /// The text lines of the view, top to bottom.
    pub open spec fn lines(self) -> Seq<Seq<char>> {
        match self {
            View::Home(props) => home_lines(props.counter as int, props.increment_amount as int),
        }
    }

    /// The frame of the view on the given bands: each text line centred in
    /// the band below the one before, the first band left empty.
    pub open spec fn frame(self, bands: Seq<Rect>) -> Seq<Placed> {
        Seq::new(
            HOME_LINES as nat,
            |i: int| Placed { text: self.lines()[i], alignment: Alignment::Center, area: bands[i + 1] },
        )
    }

    /// Whether `widgets` is a frame that `build` can hand back for the view:
    /// the frame of the view on some split of its viewport under its
    /// constraints.
    pub open spec fn builds(self, widgets: Seq<(TextBlock, Rect)>) -> bool {
        exists|bands: Seq<Rect>| #[trigger]
            vertical_bands(self.area(), self.constraints(), bands) && frame_view(widgets)
                == self.frame(bands)
    }
}

impl View {
    /// The constraints for the split of the viewport, top to bottom.
    pub fn layout(&self) -> (wanted: Vec<Constraint>)
        ensures
            wanted@ == self.constraints(),
    {
        match self {
            View::Home(props) => {
                let mut wanted: Vec<Constraint> = Vec::new();
                wanted.push(Constraint::Percentage(flex_percentage(props.screen_size.height)));
                wanted.push(Constraint::Length(2));
                wanted.push(Constraint::Length(1));
                wanted.push(Constraint::Length(1));
                wanted.push(Constraint::Length(1));
                wanted.push(Constraint::Length(1));
                assert(wanted@ =~= self.constraints());
                wanted
            },
        }
    }

    /// Pairs each text line of the view with its band: the first line with
    /// the second band, and so on down. `bands` is the viewport split under
    /// `layout()`, so it has one band more than the view has lines.
    pub fn place(&self, bands: &Vec<Rect>) -> (widgets: Vec<(TextBlock, Rect)>)
        requires
            bands@.len() > HOME_LINES,
        ensures
            frame_view(widgets@) == self.frame(bands@),
            widgets@.len() == HOME_LINES,
            forall|i: int| 0 <= i < HOME_LINES ==> (#[trigger] widgets@[i]).0.text@ == self.lines()[i],
            forall|i: int|
                0 <= i < HOME_LINES ==> (#[trigger] widgets@[i]).0.alignment == Alignment::Center,
            forall|i: int| 0 <= i < HOME_LINES ==> (#[trigger] widgets@[i]).1 == bands@[i + 1],
    {
        match self {
            View::Home(props) => {
                let mut counter_line = String::from_str("Counter: ");
                push_decimal(&mut counter_line, props.counter);
                let mut step_line = String::from_str("Hit space to increment counter by ");
                push_decimal(&mut step_line, props.increment_amount);
                let mut widgets: Vec<(TextBlock, Rect)> = Vec::new();
                widgets.push((TextBlock { text: counter_line, alignment: Alignment::Center }, bands[1]));
                widgets.push((TextBlock { text: step_line, alignment: Alignment::Center }, bands[2]));
                widgets.push(
                    (
                        TextBlock {
                            text: String::from_str("Hit Left Arrow to decrement"),
                            alignment: Alignment::Center,
                        },
                        bands[3],
                    ),
                );
                widgets.push(
                    (
                        TextBlock {
                            text: String::from_str("Hit Right Arrow to increment"),
                            alignment: Alignment::Center,
                        },
                        bands[4],
                    ),
                );
                widgets.push(
                    (
                        TextBlock { text: String::from_str("Hit q to quit"), alignment: Alignment::Center },
                        bands[5],
                    ),
                );
                assert(frame_view(widgets@) =~= self.frame(bands@));
                widgets
            },
        }
    }

    /// Builds the frame of the view: splits the viewport under `layout()` and
    /// places the text lines on the bands that come back.
    ///
    /// The text and its alignment depend on the view alone. The rectangles
    /// are the second to the last band of a split of the viewport, so each
    /// spans the width of the viewport and lies inside it; which split,
    /// among those that `vertical_bands` admits, is the layout solver's
    /// choice.
    pub fn build(&self) -> (widgets: Vec<(TextBlock, Rect)>)
        ensures
            self.builds(widgets@),
            widgets@.len() == HOME_LINES,
            forall|i: int| 0 <= i < HOME_LINES ==> (#[trigger] widgets@[i]).0.text@ == self.lines()[i],
            forall|i: int|
                0 <= i < HOME_LINES ==> (#[trigger] widgets@[i]).0.alignment == Alignment::Center,
            forall|i: int| 0 <= i < HOME_LINES ==> (#[trigger] widgets@[i]).1.within(self.area()),
            forall|i: int| 0 <= i < HOME_LINES ==> (#[trigger] widgets@[i]).1.x == self.area().x,
            forall|i: int|
                0 <= i < HOME_LINES ==> (#[trigger] widgets@[i]).1.width == self.area().width,
    {
        let wanted = self.layout();
        let bands = split_vertical(self.viewport(), &wanted);
        let widgets = self.place(&bands);
        assert(vertical_bands(self.area(), self.constraints(), bands@) && frame_view(widgets@)
            == self.frame(bands@));
        widgets
    }

    /// The viewport that the view fills.
    pub fn viewport(&self) -> (screen_size: Rect)
        ensures
            screen_size == self.area(),
    {
        match self {
            View::Home(props) => props.screen_size,
        }
    }
}

/// The share of a viewport of the given height, in percent, that is left
/// empty above the text.
pub fn flex_percentage(height: u16) -> (percent: u16)
    ensures
        percent == flex_percent(height as int),
{
    if height == 0 {
        0
    } else {
        let quotient: u16 = 300 / height;
        if quotient >= 50 {
            0
        } else {
            50 - quotient
        }
    }
}

/// The padding above the text is never negative and never more than half of
/// the viewport: it is zero for every height up to six, where fifty less
/// three hundred over the height is not positive, and positive from seven on.
pub proof fn flex_percent_is_clamped(height: int)
    ensures
        0 <= flex_percent(height) <= 50,
        height <= 6 ==> flex_percent(height) == 0,
        height >= 7 ==> flex_percent(height) == 50 - 300int / height && flex_percent(height) > 0,
{
    if height >= 7 {
        assert(0 <= 300int / height <= 42) by (nonlinear_arith)
            requires
                height >= 7,
        ;
    } else if height >= 1 {
        assert(300int / height >= 50) by (nonlinear_arith)
            requires
                1 <= height <= 6,
        ;
    }
}

/// A built frame shows the lines of its view, each centred, and nothing
/// else.
pub proof fn built_frame_shows_the_lines(view: View, widgets: Seq<(TextBlock, Rect)>)
    requires
        view.builds(widgets),
    ensures
        widgets.len() == HOME_LINES,
        forall|i: int| 0 <= i < HOME_LINES ==> (#[trigger] widgets[i]).0.text@ == view.lines()[i],
        forall|i: int|
            0 <= i < HOME_LINES ==> (#[trigger] widgets[i]).0.alignment == Alignment::Center,
{
    let bands = choose|bands: Seq<Rect>| #[trigger]
        vertical_bands(view.area(), view.constraints(), bands) && frame_view(widgets)
            == view.frame(bands);
    assert(frame_view(widgets).len() == widgets.len());
    assert forall|i: int| 0 <= i < HOME_LINES implies (#[trigger] widgets[i]).0.text@
        == view.lines()[i] && widgets[i].0.alignment == Alignment::Center by {
        assert(frame_view(widgets)[i] == view.frame(bands)[i]);
    }
}

/// Whatever split the layout hands back, every text block of a built frame
/// lies inside the viewport and spans its width: no block is drawn outside
/// the screen, however small the viewport.
pub proof fn built_frame_stays_in_viewport(view: View, widgets: Seq<(TextBlock, Rect)>)
    requires
        view.builds(widgets),
    ensures
        forall|i: int| 0 <= i < widgets.len() ==> (#[trigger] widgets[i]).1.within(view.area()),
        forall|i: int| 0 <= i < widgets.len() ==> (#[trigger] widgets[i]).1.x == view.area().x,
        forall|i: int|
            0 <= i < widgets.len() ==> (#[trigger] widgets[i]).1.width == view.area().width,
{
    let bands = choose|bands: Seq<Rect>| #[trigger]
        vertical_bands(view.area(), view.constraints(), bands) && frame_view(widgets)
            == view.frame(bands);
    assert(frame_view(widgets).len() == widgets.len());
    assert forall|i: int| 0 <= i < widgets.len() implies (#[trigger] widgets[i]).1 == bands[i + 1] by {
        assert(frame_view(widgets)[i] == view.frame(bands)[i]);
    }
}

/// Two frames built from one view show the same: as many blocks, with the
/// same text and the same alignment, in rectangles of the same column and
/// width.
pub proof fn frames_of_one_view_agree(
    view: View,
    first: Seq<(TextBlock, Rect)>,
    second: Seq<(TextBlock, Rect)>,
)
    requires
        view.builds(first),
        view.builds(second),
    ensures
        first.len() == second.len(),
        forall|i: int| 0 <= i < first.len() ==> (#[trigger] first[i]).0.text@ == second[i].0.text@,
        forall|i: int|
            0 <= i < first.len() ==> (#[trigger] first[i]).0.alignment == second[i].0.alignment,
        forall|i: int| 0 <= i < first.len() ==> (#[trigger] first[i]).1.x == second[i].1.x,
        forall|i: int| 0 <= i < first.len() ==> (#[trigger] first[i]).1.width == second[i].1.width,
{
    built_frame_shows_the_lines(view, first);
    built_frame_shows_the_lines(view, second);
    built_frame_stays_in_viewport(view, first);
    built_frame_stays_in_viewport(view, second);
}

/// Placing one view on the same bands twice gives the same frame: the same
/// text, alignment and rectangle at every place.
pub proof fn frames_on_the_same_bands_are_equal(
    view: View,
    bands: Seq<Rect>,
    first: Seq<(TextBlock, Rect)>,
    second: Seq<(TextBlock, Rect)>,
)
    requires
        frame_view(first) == view.frame(bands),
        frame_view(second) == view.frame(bands),
    ensures
        frame_view(first) == frame_view(second),
        first.len() == second.len(),
        forall|i: int| 0 <= i < first.len() ==> (#[trigger] first[i]).1 == second[i].1,
        forall|i: int| 0 <= i < first.len() ==> (#[trigger] first[i]).0.text@ == second[i].0.text@,
{
    assert(frame_view(first).len() == first.len());
    assert(frame_view(second).len() == second.len());
    assert forall|i: int| 0 <= i < first.len() implies (#[trigger] first[i]).1 == second[i].1
        && first[i].0.text@ == second[i].0.text@ by {
        assert(frame_view(first)[i].area == frame_view(second)[i].area);
        assert(frame_view(first)[i].text == frame_view(second)[i].text);
    }
}

} // verus!
