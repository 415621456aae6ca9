//! Output records: geometry, scale, names, and the accumulated mode list.

use vstd::prelude::*;

use crate::app::{apply_event, AppData, CollectorEvent};

verus! {

/// One output: numeric id, names, placement, physical data, and every mode
/// announced so far (modes accumulate without de-duplication).
pub struct OutputInfo {
    pub name: u32,
    pub output_name: String,
    pub description: String,
    pub x: i32,
    pub y: i32,
    pub scale: i32,
    pub physical_width: i32,
    pub physical_height: i32,
    pub make: String,
    pub model: String,
    pub subpixel_orientation: String,
    pub output_transform: String,
    pub modes: Vec<OutputMode>,
}

/// One advertised mode; `refresh` is in millihertz.
pub struct OutputMode {
    pub width: i32,
    pub height: i32,
    pub refresh: i32,
    pub flags: Vec<String>,
}

/// A geometry event's payload, with the subpixel layout and transform still
/// as raw wire values.
pub struct OutputGeometry {
    pub x: i32,
    pub y: i32,
    pub physical_width: i32,
    pub physical_height: i32,
    pub subpixel: u32,
    pub transform: u32,
    pub make: String,
    pub model: String,
}

/// Mathematical image of an `OutputMode`.
#[verifier::ext_equal]
pub ghost struct OutputModeView {
    pub width: i32,
    pub height: i32,
    pub refresh: i32,
    pub flags: Seq<Seq<char>>,
}

/// Mathematical image of an `OutputInfo`.
#[verifier::ext_equal]
pub ghost struct OutputView {
    pub name: u32,
    pub output_name: Seq<char>,
    pub description: Seq<char>,
    pub x: i32,
    pub y: i32,
    pub scale: i32,
    pub physical_width: i32,
    pub physical_height: i32,
    pub make: Seq<char>,
    pub model: Seq<char>,
    pub subpixel_orientation: Seq<char>,
    pub output_transform: Seq<char>,
    pub modes: Seq<OutputModeView>,
}

/// Mathematical image of an `OutputGeometry`.
#[verifier::ext_equal]
pub ghost struct OutputGeometryView {
    pub x: i32,
    pub y: i32,
    pub physical_width: i32,
    pub physical_height: i32,
    pub subpixel: u32,
    pub transform: u32,
    pub make: Seq<char>,
    pub model: Seq<char>,
}

impl View for OutputMode {
    type V = OutputModeView;

    open spec fn view(&self) -> OutputModeView {
        OutputModeView {
            width: self.width,
            height: self.height,
            refresh: self.refresh,
            flags: self.flags.deep_view(),
        }
    }
}

impl DeepView for OutputMode {
    type V = OutputModeView;

    open spec fn deep_view(&self) -> OutputModeView {
        self.view()
    }
}

impl View for OutputInfo {
    type V = OutputView;

    open spec fn view(&self) -> OutputView {
        OutputView {
            name: self.name,
            output_name: self.output_name@,
            description: self.description@,
            x: self.x,
            y: self.y,
            scale: self.scale,
            physical_width: self.physical_width,
            physical_height: self.physical_height,
            make: self.make@,
            model: self.model@,
            subpixel_orientation: self.subpixel_orientation@,
            output_transform: self.output_transform@,
            modes: self.modes.deep_view(),
        }
    }
}

impl DeepView for OutputInfo {
    type V = OutputView;

    open spec fn deep_view(&self) -> OutputView {
        self.view()
    }
}

impl View for OutputGeometry {
    type V = OutputGeometryView;

    open spec fn view(&self) -> OutputGeometryView {
        OutputGeometryView {
            x: self.x,
            y: self.y,
            physical_width: self.physical_width,
            physical_height: self.physical_height,
            subpixel: self.subpixel,
            transform: self.transform,
            make: self.make@,
            model: self.model@,
        }
    }
}

/// The canonical lowercase token for a subpixel-layout wire value;
/// unrecognized values fall back to "unknown".
pub open spec fn subpixel_token_of(v: u32) -> Seq<char> {
    if v == 1 {
        "none"@
    } else if v == 2 {
        "horizontal_rgb"@
    } else if v == 3 {
        "horizontal_bgr"@
    } else if v == 4 {
        "vertical_rgb"@
    } else if v == 5 {
        "vertical_bgr"@
    } else {
        "unknown"@
    }
}

/// The canonical token for a transform wire value; unrecognized values fall
/// back to "normal".
pub open spec fn transform_token_of(v: u32) -> Seq<char> {
    if v == 1 {
        "90"@
    } else if v == 2 {
        "180"@
    } else if v == 3 {
        "270"@
    } else if v == 4 {
        "flipped"@
    } else if v == 5 {
        "flipped-90"@
    } else if v == 6 {
        "flipped-180"@
    } else if v == 7 {
        "flipped-270"@
    } else {
        "normal"@
    }
}

/// The mode-flag tokens named by a mode-flag bit set, current before
/// preferred; unknown bits contribute nothing.
pub open spec fn mode_flag_tokens_of(bits: u32) -> Seq<Seq<char>> {
    (if bits & 1 == 1 {
        seq!["current"@]
    } else {
        Seq::empty()
    }) + (if bits & 2 == 2 {
        seq!["preferred"@]
    } else {
        Seq::empty()
    })
}

/// Renders a subpixel-layout wire value as its canonical token.
pub fn subpixel_token(v: u32) -> (r: String)
    ensures
        r@ == subpixel_token_of(v),
{
    if v == 1 {
        "none".to_owned()
    } else if v == 2 {
        "horizontal_rgb".to_owned()
    } else if v == 3 {
        "horizontal_bgr".to_owned()
    } else if v == 4 {
        "vertical_rgb".to_owned()
    } else if v == 5 {
        "vertical_bgr".to_owned()
    } else {
        "unknown".to_owned()
    }
}

/// Renders a transform wire value as its canonical token.
pub fn transform_token(v: u32) -> (r: String)
    ensures
        r@ == transform_token_of(v),
{
    if v == 1 {
        "90".to_owned()
    } else if v == 2 {
        "180".to_owned()
    } else if v == 3 {
        "270".to_owned()
    } else if v == 4 {
        "flipped".to_owned()
    } else if v == 5 {
        "flipped-90".to_owned()
    } else if v == 6 {
        "flipped-180".to_owned()
    } else if v == 7 {
        "flipped-270".to_owned()
    } else {
        "normal".to_owned()
    }
}

/// Decodes a mode-flag bit set into its canonical tokens.
pub fn mode_flag_tokens(bits: u32) -> (r: Vec<String>)
    ensures
        r.deep_view() == mode_flag_tokens_of(bits),
{
    let mut r: Vec<String> = Vec::new();
    if bits & 1 == 1 {
        r.push("current".to_owned());
    }
    if bits & 2 == 2 {
        r.push("preferred".to_owned());
    }
    proof {
        assert(r.deep_view() =~= mode_flag_tokens_of(bits));
    }
    r
}

impl AppData {
    /// Creates the output record for a newly announced output, with neutral
    /// defaults: origin position, scale 1, empty names and no modes.
    pub fn add_output(&mut self, name: u32, output_name: String)
        ensures
            final(self)@ == apply_event(
                old(self)@,
                CollectorEvent::AddOutput { name, output_name: output_name@ },
            ),
    {
        self.outputs.push(OutputInfo {
            name,
            output_name,
            description: String::new(),
            x: 0,
            y: 0,
            scale: 1,
            physical_width: 0,
            physical_height: 0,
            make: String::new(),
            model: String::new(),
            subpixel_orientation: String::new(),
            output_transform: String::new(),
            modes: Vec::new(),
        });
        proof {
            assert(self@ =~~= apply_event(
                old(self)@,
                CollectorEvent::AddOutput { name, output_name: output_name@ },
            ));
        }
    }

    /// Folds a geometry event into the output at `output_index`, mapping the
    /// subpixel and transform wire values to their canonical tokens; an
    /// index past the records discards the event.
    pub fn update_output_geometry(&mut self, output_index: usize, geometry: OutputGeometry)
        ensures
            final(self)@ == apply_event(
                old(self)@,
                CollectorEvent::UpdateOutputGeometry {
                    output_index: output_index as int,
                    geometry: geometry@,
                },
            ),
    {
        if output_index < self.outputs.len() {
            self.outputs[output_index].x = geometry.x;
            self.outputs[output_index].y = geometry.y;
            self.outputs[output_index].physical_width = geometry.physical_width;
            self.outputs[output_index].physical_height = geometry.physical_height;
            self.outputs[output_index].make = geometry.make;
            self.outputs[output_index].model = geometry.model;
            self.outputs[output_index].subpixel_orientation = subpixel_token(geometry.subpixel);
            self.outputs[output_index].output_transform = transform_token(geometry.transform);
            proof {
                assert(self@ =~~= apply_event(
                    old(self)@,
                    CollectorEvent::UpdateOutputGeometry {
                        output_index: output_index as int,
                        geometry: geometry@,
                    },
                ));
            }
        }
    }

    /// Appends a mode event's data to the output at `output_index`,
    /// decoding the flag bits; an index past the records discards the event.
    pub fn update_output_mode(
        &mut self,
        output_index: usize,
        flags: u32,
        width: i32,
        height: i32,
        refresh: i32,
    )
        ensures
            final(self)@ == apply_event(
                old(self)@,
                CollectorEvent::UpdateOutputMode {
                    output_index: output_index as int,
                    flags,
                    width,
                    height,
                    refresh,
                },
            ),
    {
        if output_index < self.outputs.len() {
            let mode_flags = mode_flag_tokens(flags);
            self.outputs[output_index].modes.push(OutputMode {
                width,
                height,
                refresh,
                flags: mode_flags,
            });
            proof {
                assert(self@ =~~= apply_event(
                    old(self)@,
                    CollectorEvent::UpdateOutputMode {
                        output_index: output_index as int,
                        flags,
                        width,
                        height,
                        refresh,
                    },
                ));
            }
        }
    }

    /// Replaces the scale of the output at `output_index`; an index past
    /// the records discards the event.
    pub fn update_output_scale(&mut self, output_index: usize, factor: i32)
        ensures
            final(self)@ == apply_event(
                old(self)@,
                CollectorEvent::UpdateOutputScale { output_index: output_index as int, factor },
            ),
    {
        if output_index < self.outputs.len() {
            self.outputs[output_index].scale = factor;
            proof {
                assert(self@ =~~= apply_event(
                    old(self)@,
                    CollectorEvent::UpdateOutputScale {
                        output_index: output_index as int,
                        factor,
                    },
                ));
            }
        }
    }

    /// Replaces the name of the output at `output_index`; an index past the
    /// records discards the event.
    pub fn update_output_name(&mut self, output_index: usize, name: String)
        ensures
            final(self)@ == apply_event(
                old(self)@,
                CollectorEvent::UpdateOutputName { output_index: output_index as int, name: name@ },
            ),
    {
        if output_index < self.outputs.len() {
            self.outputs[output_index].output_name = name;
            proof {
                assert(self@ =~~= apply_event(
                    old(self)@,
                    CollectorEvent::UpdateOutputName {
                        output_index: output_index as int,
                        name: name@,
                    },
                ));
            }
        }
    }

    /// Replaces the description of the output at `output_index`; an index
    /// past the records discards the event.
    pub fn update_output_description(&mut self, output_index: usize, description: String)
        ensures
            final(self)@ == apply_event(
                old(self)@,
                CollectorEvent::UpdateOutputDescription {
                    output_index: output_index as int,
                    description: description@,
                },
            ),
    {
        if output_index < self.outputs.len() {
            self.outputs[output_index].description = description;
            proof {
                assert(self@ =~~= apply_event(
                    old(self)@,
                    CollectorEvent::UpdateOutputDescription {
                        output_index: output_index as int,
                        description: description@,
                    },
                ));
            }
        }
    }
}

} // verus!
