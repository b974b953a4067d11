use vstd::prelude::*;
use vstd::string::StringExecFns;
use crate::input_field::{all_digits, digits_value, lemma_decimal_digits};
use crate::text::{contains_seq, contains_str, decimal, occurs_at, push_decimal};

verus! {

/// The annotation tool chosen in the edit window.
#[derive(PartialEq, Eq, Structural, Clone, Copy, Debug)]
pub enum Annotation {
    Crop,
    Circle,
    Line,
    Cross,
    Rectangle,
    FreeLine,
    Highlighter,
    Arrow,
    Text,
}

/// The capture part of the application state: the screenshot counter, the
/// image kept (`image_data_old`, PNG bytes) and the one being annotated
/// (`image_data_new`), the mouse state, the points dragged through (`C` is
/// the coordinate type), the chosen annotation and the text to draw.
pub struct CaptureSession<C> {
    pub screenshot_number: u32,
    pub image_data_old: Vec<u8>,
    pub image_data_new: Vec<u8>,
    pub press: bool,
    pub first_screen: bool,
    pub positions: Vec<(C, C)>,
    pub annotation: Annotation,
    pub text_annotation: String,
}

/// A mouse event seen by the screenshot widget, with the position in the
/// window where it has one.
pub enum MouseInput<C> {
    Down { left: bool, pos: (C, C) },
    Move { pos: (C, C) },
    Up,
    Other,
}

/// The cursor that the screenshot widget shows.
#[derive(PartialEq, Eq, Structural, Clone, Copy, Debug)]
pub enum CursorShape {
    IBeam,
    Crosshair,
}

/// What the screenshot widget asks its window to do after a mouse event.
#[derive(PartialEq, Eq, Structural, Clone, Copy, Debug)]
pub enum ScreenAction {
    /// Compute the offsets of the image in the window.
    ComputeOffsets,
    /// Show this cursor and paint again.
    SetCursorAndRepaint(CursorShape),
    /// The selection is complete: crop or annotate the image.
    FinishSelection,
    Nothing,
}

/// The window that comes next once a selection is done.
#[derive(PartialEq, Eq, Structural, Clone, Copy, Debug)]
pub enum NextWindow {
    /// The window that shows the image with the save and annotation buttons.
    Selection,
    /// The window where the chosen annotation is drawn.
    Edit,
    /// The current window stays.
    Same,
}

/// The extra controls of the edit window besides approve and reject.
#[derive(PartialEq, Eq, Structural, Clone, Copy, Debug)]
pub enum EditControls {
    /// A button to add the text, a text box and a font-size slider.
    TextTools,
    /// A slider for the highlighter's width.
    HighlighterWidth,
    NoExtra,
}

/// The window after a selection: the edit window when an annotated image
/// waits for approval, the selection window otherwise, and none while text
/// is being placed.
pub open spec fn next_window_after(annotation: Annotation, new_image: Seq<u8>) -> NextWindow {
    if annotation == Annotation::Text {
        NextWindow::Same
    } else if new_image.len() == 0 {
        NextWindow::Selection
    } else {
        NextWindow::Edit
    }
}

/// The screenshot number after a save under the automatic name: one more,
/// wrapping from the largest `u32` back to 0.
pub open spec fn next_number(n: u32) -> u32 {
    if n == u32::MAX {
        0
    } else {
        (n + 1) as u32
    }
}

/// The name proposed for a screenshot: "Screen<number>.<format>".
pub open spec fn default_name(n: u32, format: Seq<char>) -> Seq<char> {
    "Screen"@ + decimal(n as nat) + "."@ + format
}

/// The counter advances after a save whose file name holds "Screen".
pub open spec fn number_after_save(n: u32, file_name: Seq<char>) -> u32 {
    if contains_seq(file_name, "Screen"@) {
        next_number(n)
    } else {
        n
    }
}

/// The segments of a free-hand line: each point joined to the next.
pub open spec fn segments_of<C>(p: Seq<(C, C)>) -> Seq<((C, C), (C, C))> {
    Seq::new(if p.len() == 0 { 0 } else { (p.len() - 1) as nat }, |i: int| (p[i], p[i + 1]))
}

/// The two diagonals of the box that the first and last point span.
pub open spec fn cross_of<C>(first: (C, C), last: (C, C)) -> (((C, C), (C, C)), ((C, C), (C, C))) {
    ((first, last), ((first.0, last.1), (last.0, first.1)))
}

/// The caption of the edit window for each annotation.
pub open spec fn description_of(a: Annotation) -> Seq<char> {
    match a {
        Annotation::Crop => "Click and Drag to Crop the Area: "@,
        Annotation::Circle => "Click and Drag to Draw a Circle: "@,
        Annotation::Line => "Click and Drag to Draw a Line: "@,
        Annotation::Cross => "Click and Drag to Draw a Cross: "@,
        Annotation::Rectangle => "Click and Drag to Draw a Rectangle: "@,
        Annotation::FreeLine => "Click and Drag to Draw a Free Line: "@,
        Annotation::Highlighter => "Click and Drag to Highlighting Something: "@,
        Annotation::Arrow => "Click and Drag to Draw an Arrow: "@,
        Annotation::Text => "Click on image, write text in textbox, and select font size:"@,
    }
}

/// Saving under the name the dialog proposes advances the counter: the
/// proposed name always holds "Screen".
pub proof fn law_proposed_name_advances_counter(n: u32, format: Seq<char>)
    ensures
        number_after_save(n, default_name(n, format)) == next_number(n),
{
    let name = default_name(n, format);
    let word = "Screen"@;
    let rest = decimal(n as nat) + "."@ + format;
    assert(name =~= word + rest);
    assert(name.subrange(0, word.len() as int) =~= word);
    assert(occurs_at(name, word, 0));
}

/// The proposed name is "Screen", the whole counter in decimal digits, a
/// dot and the format: the digits after "Screen" read back as the counter.
pub proof fn law_proposed_name_holds_the_counter(n: u32, format: Seq<char>)
    ensures
        ({
            let name = default_name(n, format);
            let dot = name.len() - format.len() - 1;
            let digits = name.subrange(6, dot);
            &&& name.subrange(0, 6) == "Screen"@
            &&& 6 < dot
            &&& all_digits(digits)
            &&& digits_value(digits) == n
            &&& name[dot] == '.'
            &&& name.subrange(dot + 1, name.len() as int) == format
        }),
{
    reveal_strlit("Screen");
    reveal_strlit(".");
    lemma_decimal_digits(n as nat);
    let d = decimal(n as nat);
    let name = default_name(n, format);
    assert(name =~= "Screen"@ + d + "."@ + format);
    let dot = name.len() - format.len() - 1;
    assert(dot == 6 + d.len());
    assert(name.subrange(0, 6) =~= "Screen"@);
    assert(name.subrange(6, dot) =~= d);
    assert(name[dot] == '.');
    assert(name.subrange(dot + 1, name.len() as int) =~= format);
}

/// Only the first window after a selection depends on the tool: placing
/// text keeps the window; for every other tool, including cropping, an
/// image waiting for approval opens the edit window and none brings the
/// selection window back.
pub proof fn law_next_window_follows_the_waiting_image(a: Annotation, new_image: Seq<u8>)
    ensures
        a == Annotation::Text ==> next_window_after(a, new_image) == NextWindow::Same,
        a != Annotation::Text && new_image.len() > 0 ==> next_window_after(a, new_image) == NextWindow::Edit,
        a != Annotation::Text && new_image.len() == 0 ==> next_window_after(a, new_image) == NextWindow::Selection,
{
}

/// Each tool has its own caption: no two annotations share one.
pub proof fn law_captions_are_distinct(a: Annotation, b: Annotation)
    requires
        a != b,
    ensures
        description_of(a) != description_of(b),
{
    reveal_strlit("Click and Drag to Crop the Area: ");
    reveal_strlit("Click and Drag to Draw a Circle: ");
    reveal_strlit("Click and Drag to Draw a Line: ");
    reveal_strlit("Click and Drag to Draw a Cross: ");
    reveal_strlit("Click and Drag to Draw a Rectangle: ");
    reveal_strlit("Click and Drag to Draw a Free Line: ");
    reveal_strlit("Click and Drag to Highlighting Something: ");
    reveal_strlit("Click and Drag to Draw an Arrow: ");
    reveal_strlit("Click on image, write text in textbox, and select font size:");
    let (x, y) = (description_of(a), description_of(b));
    if x.len() == y.len() {
        assert(x[18] != y[18] || x[24] != y[24] || x[25] != y[25]);
    }
}

/// The segments of a free-hand line form one chain: each starts where the
/// one before ends, the first starts at the first point and the last ends at
/// the last point.
pub proof fn law_segments_form_a_chain<C>(p: Seq<(C, C)>)
    requires
        p.len() >= 2,
    ensures
        segments_of(p).len() == p.len() - 1,
        segments_of(p)[0].0 == p[0],
        segments_of(p).last().1 == p.last(),
        forall|i: int| 0 <= i < segments_of(p).len() - 1 ==> #[trigger] segments_of(p)[i].1 == segments_of(p)[i + 1].0,
{
}

/// Where a point list ends: its first and last point.
pub fn stroke_endpoints<C: Copy>(positions: &Vec<(C, C)>) -> (r: Option<((C, C), (C, C))>)
    ensures
        positions@.len() == 0 ==> r is None,
        positions@.len() > 0 ==> r == Some((positions@[0], positions@.last())),
{
    if positions.len() == 0 {
        None
    } else {
        Some((positions[0], positions[positions.len() - 1]))
    }
}

/// The two lines of a cross drawn by dragging: the diagonals of the box
/// between the first and the last point.
pub fn cross_lines<C: Copy>(positions: &Vec<(C, C)>) -> (r: Option<(((C, C), (C, C)), ((C, C), (C, C)))>)
    ensures
        positions@.len() == 0 ==> r is None,
        positions@.len() > 0 ==> r == Some(cross_of(positions@[0], positions@.last())),
{
    match stroke_endpoints(positions) {
        None => None,
        Some((first, last)) => Some(((first, last), ((first.0, last.1), (last.0, first.1)))),
    }
}

/// The segments of a free-hand line through the points, in order.
pub fn free_line_segments<C: Copy>(positions: &Vec<(C, C)>) -> (r: Vec<((C, C), (C, C))>)
    ensures
        r@ == segments_of(positions@),
{
    let mut r: Vec<((C, C), (C, C))> = Vec::new();
    let n = positions.len();
    if n == 0 {
        assert(r@ =~= segments_of(positions@));
        return r;
    }
    for i in 0..n - 1
        invariant
            n == positions@.len(),
            n > 0,
            r@ =~= segments_of(positions@).take(i as int),
    {
        r.push((positions[i], positions[i + 1]));
        assert(r@ =~= segments_of(positions@).take(i + 1));
    }
    assert(r@ =~= segments_of(positions@));
    r
}

/// The point where text is placed: the last point clicked.
pub fn text_anchor<C: Copy>(positions: &Vec<(C, C)>) -> (r: Option<(C, C)>)
    ensures
        positions@.len() == 0 ==> r is None,
        positions@.len() > 0 ==> r == Some(positions@.last()),
{
    if positions.len() == 0 {
        None
    } else {
        Some(positions[positions.len() - 1])
    }
}

/// The caption of the edit window for the chosen annotation.
pub fn annotation_description(a: Annotation) -> (r: String)
    ensures
        r@ == description_of(a),
{
    match a {
        Annotation::Crop => "Click and Drag to Crop the Area: ".to_owned(),
        Annotation::Circle => "Click and Drag to Draw a Circle: ".to_owned(),
        Annotation::Line => "Click and Drag to Draw a Line: ".to_owned(),
        Annotation::Cross => "Click and Drag to Draw a Cross: ".to_owned(),
        Annotation::Rectangle => "Click and Drag to Draw a Rectangle: ".to_owned(),
        Annotation::FreeLine => "Click and Drag to Draw a Free Line: ".to_owned(),
        Annotation::Highlighter => "Click and Drag to Highlighting Something: ".to_owned(),
        Annotation::Arrow => "Click and Drag to Draw an Arrow: ".to_owned(),
        Annotation::Text => "Click on image, write text in textbox, and select font size:".to_owned(),
    }
}

/// The extra controls that the edit window shows for an annotation.
pub fn edit_controls(a: Annotation) -> (r: EditControls)
    ensures
        r == (if a == Annotation::Text {
            EditControls::TextTools
        } else if a == Annotation::Highlighter {
            EditControls::HighlighterWidth
        } else {
            EditControls::NoExtra
        }),
{
    match a {
        Annotation::Text => EditControls::TextTools,
        Annotation::Highlighter => EditControls::HighlighterWidth,
        _ => EditControls::NoExtra,
    }
}

/// The counter after a save under the automatic name.
pub fn next_screenshot_number(n: u32) -> (r: u32)
    ensures
        r == next_number(n),
{
    if n == u32::MAX {
        0
    } else {
        n + 1
    }
}

impl<C> CaptureSession<C> {
    /// A session that has taken no screenshot yet.
    pub fn new(screenshot_number: u32) -> (r: Self)
        ensures
            r.screenshot_number == screenshot_number,
            r.image_data_old@.len() == 0,
            r.image_data_new@.len() == 0,
            !r.press,
            r.first_screen,
            r.positions@.len() == 0,
            r.annotation == Annotation::Crop,
            r.text_annotation@.len() == 0,
    {
        CaptureSession {
            screenshot_number,
            image_data_old: Vec::new(),
            image_data_new: Vec::new(),
            press: false,
            first_screen: true,
            positions: Vec::new(),
            annotation: Annotation::Crop,
            text_annotation: String::new(),
        }
    }

    /// Clears everything of the last capture before a new one starts; the
    /// counter and the text typed stay.
    pub fn reset_for_new_capture(&mut self)
        ensures
            final(self).screenshot_number == old(self).screenshot_number,
            final(self).image_data_old@.len() == 0,
            final(self).image_data_new@.len() == 0,
            !final(self).press,
            final(self).first_screen,
            final(self).positions@.len() == 0,
            final(self).annotation == Annotation::Crop,
            final(self).text_annotation == old(self).text_annotation,
    {
        self.image_data_old = Vec::new();
        self.image_data_new = Vec::new();
        self.press = false;
        self.first_screen = true;
        self.positions = Vec::new();
        self.annotation = Annotation::Crop;
    }

    /// Whether the save button has an image to write.
    pub fn can_save(&self) -> (r: bool)
        ensures
            r == (self.image_data_old@.len() > 0),
    {
        self.image_data_old.len() > 0
    }

    /// The file name proposed in the save dialog.
    pub fn default_file_name(&self, save_format: &str) -> (r: String)
        ensures
            r@ == default_name(self.screenshot_number, save_format@),
            r@ == "Screen"@ + decimal(self.screenshot_number as nat) + "."@ + save_format@,
    {
        let mut r = "Screen".to_owned();
        push_decimal(&mut r, self.screenshot_number as u64);
        r.append(".");
        r.append(save_format);
        r
    }

    /// Records that the image was written to a file named `file_name`: the
    /// counter advances when the name holds "Screen", and the session goes
    /// back to taking a first screenshot.
    pub fn record_save(&mut self, file_name: &str)
        ensures
            final(self).screenshot_number == number_after_save(
                old(self).screenshot_number,
                file_name@,
            ),
            final(self).image_data_old@.len() == 0,
            final(self).first_screen,
            final(self).image_data_new == old(self).image_data_new,
            final(self).press == old(self).press,
            final(self).positions == old(self).positions,
            final(self).annotation == old(self).annotation,
            final(self).text_annotation == old(self).text_annotation,
    {
        if contains_str(file_name, "Screen") {
            self.screenshot_number = next_screenshot_number(self.screenshot_number);
        }
        self.image_data_old = Vec::new();
        self.first_screen = true;
    }

    /// The text drawn at the clicked point (`image`, PNG bytes) waits for
    /// approval; the clicked points are cleared.
    pub fn place_text(&mut self, image: Vec<u8>)
        ensures
            final(self).image_data_new@ == image@,
            final(self).positions@.len() == 0,
            final(self).image_data_old == old(self).image_data_old,
            final(self).screenshot_number == old(self).screenshot_number,
            final(self).first_screen == old(self).first_screen,
            final(self).press == old(self).press,
            final(self).annotation == old(self).annotation,
            final(self).text_annotation == old(self).text_annotation,
    {
        self.image_data_new = image;
        self.positions = Vec::new();
    }

    /// The cancel button: the image is dropped and the next capture starts
    /// from scratch.
    pub fn cancel(&mut self)
        ensures
            final(self).image_data_old@.len() == 0,
            final(self).first_screen,
            final(self).screenshot_number == old(self).screenshot_number,
            final(self).image_data_new == old(self).image_data_new,
            final(self).press == old(self).press,
            final(self).positions == old(self).positions,
            final(self).annotation == old(self).annotation,
            final(self).text_annotation == old(self).text_annotation,
    {
        self.image_data_old = Vec::new();
        self.first_screen = true;
    }

    /// The approve button of the edit window: the annotated image, if any,
    /// replaces the kept one; the tool and the points are cleared.
    pub fn approve_edit(&mut self)
        ensures
            final(self).image_data_old@ == (if old(self).image_data_new@.len() > 0 {
                old(self).image_data_new@
            } else {
                old(self).image_data_old@
            }),
            final(self).image_data_new@.len() == 0,
            final(self).annotation == Annotation::Crop,
            final(self).positions@.len() == 0,
            final(self).screenshot_number == old(self).screenshot_number,
            final(self).first_screen == old(self).first_screen,
            final(self).press == old(self).press,
            final(self).text_annotation == old(self).text_annotation,
    {
        if self.image_data_new.len() > 0 {
            self.image_data_old = self.image_data_new.clone();
        }
        self.image_data_new = Vec::new();
        self.annotation = Annotation::Crop;
        self.positions = Vec::new();
    }

    /// The reject button of the edit window: the annotated image is
    /// dropped, the kept one stays; the tool and the points are cleared.
    pub fn reject_edit(&mut self)
        ensures
            final(self).image_data_old == old(self).image_data_old,
            final(self).image_data_new@.len() == 0,
            final(self).annotation == Annotation::Crop,
            final(self).positions@.len() == 0,
            final(self).screenshot_number == old(self).screenshot_number,
            final(self).first_screen == old(self).first_screen,
            final(self).press == old(self).press,
            final(self).text_annotation == old(self).text_annotation,
    {
        self.image_data_new = Vec::new();
        self.annotation = Annotation::Crop;
        self.positions = Vec::new();
    }
}

/// The widget over which a region is selected and annotations are drawn.
pub struct ScreenshotWidget;

impl ScreenshotWidget {
    /// Handles a mouse event: a left press starts a drag, a text annotation
    /// takes the clicked point, a drag collects the points it passes, and the
    /// release ends the drag and finishes the selection when points were
    /// collected.
    pub fn event<C>(&mut self, event: MouseInput<C>, data: &mut CaptureSession<C>) -> (r: ScreenAction)
        ensures
            final(data).screenshot_number == old(data).screenshot_number,
            final(data).image_data_old == old(data).image_data_old,
            final(data).image_data_new == old(data).image_data_new,
            final(data).first_screen == old(data).first_screen,
            final(data).annotation == old(data).annotation,
            final(data).text_annotation == old(data).text_annotation,
            match event {
                MouseInput::Down { left, pos } => {
                    &&& final(data).press == (old(data).press || left)
                    &&& final(data).positions@ == (if old(data).annotation == Annotation::Text {
                        old(data).positions@.push(pos)
                    } else {
                        old(data).positions@
                    })
                    &&& r == (if left { ScreenAction::ComputeOffsets } else { ScreenAction::Nothing })
                },
                MouseInput::Move { pos } => {
                    &&& final(data).press == old(data).press
                    &&& final(data).positions@ == (if old(data).annotation != Annotation::Text
                        && old(data).press {
                        old(data).positions@.push(pos)
                    } else {
                        old(data).positions@
                    })
                    &&& r == ScreenAction::SetCursorAndRepaint(
                        if old(data).annotation == Annotation::Text {
                            CursorShape::IBeam
                        } else {
                            CursorShape::Crosshair
                        },
                    )
                },
                MouseInput::Up => {
                    &&& !final(data).press
                    &&& final(data).positions == old(data).positions
                    &&& r == (if old(data).positions@.len() > 0 {
                        ScreenAction::FinishSelection
                    } else {
                        ScreenAction::Nothing
                    })
                },
                MouseInput::Other => {
                    &&& final(data).press == old(data).press
                    &&& final(data).positions == old(data).positions
                    &&& r == ScreenAction::Nothing
                },
            },
    {
        match event {
            MouseInput::Down { left, pos } => {
                if left {
                    data.press = true;
                }
                if data.annotation == Annotation::Text {
                    data.positions.push(pos);
                }
                if left {
                    ScreenAction::ComputeOffsets
                } else {
                    ScreenAction::Nothing
                }
            },
            MouseInput::Move { pos } => {
                if data.annotation == Annotation::Text {
                    ScreenAction::SetCursorAndRepaint(CursorShape::IBeam)
                } else {
                    if data.press {
                        data.positions.push(pos);
                    }
                    ScreenAction::SetCursorAndRepaint(CursorShape::Crosshair)
                }
            },
            MouseInput::Up => {
                data.press = false;
                if data.positions.len() > 0 {
                    ScreenAction::FinishSelection
                } else {
                    ScreenAction::Nothing
                }
            },
            MouseInput::Other => ScreenAction::Nothing,
        }
    }

    /// Ends the first selection, the region of the screen captured: the
    /// captured image (`image`, PNG bytes) becomes the kept one, the points
    /// are cleared, and the next window is chosen.
    pub fn finish_first_capture<C>(&mut self, data: &mut CaptureSession<C>, image: Vec<u8>) -> (r: NextWindow)
        ensures
            final(data).image_data_old@ == image@,
            !final(data).first_screen,
            final(data).positions@.len() == 0,
            final(data).image_data_new == old(data).image_data_new,
            final(data).screenshot_number == old(data).screenshot_number,
            final(data).press == old(data).press,
            final(data).annotation == old(data).annotation,
            final(data).text_annotation == old(data).text_annotation,
            r == next_window_after(old(data).annotation, old(data).image_data_new@),
    {
        data.positions = Vec::new();
        data.image_data_old = image;
        data.first_screen = false;
        self.window_after(data)
    }

    /// Ends a selection over the kept image: unless text is being placed,
    /// the points are cleared and `image` (PNG bytes, the cropped or
    /// annotated image) becomes the image waiting for approval; then the
    /// next window is chosen.
    pub fn finish_annotation<C>(&mut self, data: &mut CaptureSession<C>, image: Vec<u8>) -> (r: NextWindow)
        ensures
            old(data).annotation != Annotation::Text ==> {
                &&& final(data).positions@.len() == 0
                &&& final(data).image_data_new@ == image@
            },
            old(data).annotation == Annotation::Text ==> {
                &&& final(data).positions == old(data).positions
                &&& final(data).image_data_new == old(data).image_data_new
            },
            final(data).image_data_old == old(data).image_data_old,
            final(data).first_screen == old(data).first_screen,
            final(data).screenshot_number == old(data).screenshot_number,
            final(data).press == old(data).press,
            final(data).annotation == old(data).annotation,
            final(data).text_annotation == old(data).text_annotation,
            r == next_window_after(final(data).annotation, final(data).image_data_new@),
            old(data).annotation != Annotation::Text && image@.len() > 0 ==> r == NextWindow::Edit,
            old(data).annotation != Annotation::Text && image@.len() == 0 ==> r == NextWindow::Selection,
            old(data).annotation == Annotation::Text ==> r == NextWindow::Same,
    {
        if data.annotation != Annotation::Text {
            data.positions = Vec::new();
            data.image_data_new = image;
        }
        self.window_after(data)
    }

    /// Abandons a selection too small to crop: the points are cleared.
    pub fn abandon_selection<C>(&mut self, data: &mut CaptureSession<C>)
        ensures
            final(data).positions@.len() == 0,
            final(data).image_data_old == old(data).image_data_old,
            final(data).image_data_new == old(data).image_data_new,
            final(data).first_screen == old(data).first_screen,
            final(data).screenshot_number == old(data).screenshot_number,
            final(data).press == old(data).press,
            final(data).annotation == old(data).annotation,
            final(data).text_annotation == old(data).text_annotation,
    {
        data.positions = Vec::new();
    }

    fn window_after<C>(&self, data: &CaptureSession<C>) -> (r: NextWindow)
        ensures
            r == next_window_after(data.annotation, data.image_data_new@),
    {
        if data.annotation == Annotation::Text {
            NextWindow::Same
        } else if data.image_data_new.len() == 0 {
            NextWindow::Selection
        } else {
            NextWindow::Edit
        }
    }
}

} // verus!
