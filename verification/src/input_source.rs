use vstd::prelude::*;

verus! {

/// Input sources of a display, named as the control-command standard names
/// the values of the input-select register.
#[derive(Clone, Copy, Debug, PartialEq, Eq, Structural)]
pub enum InputSource {
    Vga1,
    Vga2,
    Dvi1,
    Dvi2,
    Composite1,
    Composite2,
    SVideo1,
    SVideo2,
    Tuner1,
    Tuner2,
    Tuner3,
    Component1,
    Component2,
    Component3,
    DisplayPort1,
    DisplayPort2,
    Hdmi1,
    Hdmi2,
}

impl InputSource {
    /// The register value that selects this source.
    pub open spec fn spec_code(self) -> u16 {
        match self {
            InputSource::Vga1 => 1,
            InputSource::Vga2 => 2,
            InputSource::Dvi1 => 3,
            InputSource::Dvi2 => 4,
            InputSource::Composite1 => 5,
            InputSource::Composite2 => 6,
            InputSource::SVideo1 => 7,
            InputSource::SVideo2 => 8,
            InputSource::Tuner1 => 9,
            InputSource::Tuner2 => 10,
            InputSource::Tuner3 => 11,
            InputSource::Component1 => 12,
            InputSource::Component2 => 13,
            InputSource::Component3 => 14,
            InputSource::DisplayPort1 => 15,
            InputSource::DisplayPort2 => 16,
            InputSource::Hdmi1 => 17,
            InputSource::Hdmi2 => 18,
        }
    }

    /// The register value that selects this source.
    pub fn code(self) -> (c: u16)
        ensures
            c == self.spec_code(),
            1 <= c <= 18,
    {
        match self {
            InputSource::Vga1 => 1,
            InputSource::Vga2 => 2,
            InputSource::Dvi1 => 3,
            InputSource::Dvi2 => 4,
            InputSource::Composite1 => 5,
            InputSource::Composite2 => 6,
            InputSource::SVideo1 => 7,
            InputSource::SVideo2 => 8,
            InputSource::Tuner1 => 9,
            InputSource::Tuner2 => 10,
            InputSource::Tuner3 => 11,
            InputSource::Component1 => 12,
            InputSource::Component2 => 13,
            InputSource::Component3 => 14,
            InputSource::DisplayPort1 => 15,
            InputSource::DisplayPort2 => 16,
            InputSource::Hdmi1 => 17,
            InputSource::Hdmi2 => 18,
        }
    }
    /// The name of this source, as it is written in the variant.
    pub open spec fn spec_name(self) -> Seq<char> {
        match self {
            InputSource::Vga1 => "Vga1"@,
            InputSource::Vga2 => "Vga2"@,
            InputSource::Dvi1 => "Dvi1"@,
            InputSource::Dvi2 => "Dvi2"@,
            InputSource::Composite1 => "Composite1"@,
            InputSource::Composite2 => "Composite2"@,
            InputSource::SVideo1 => "SVideo1"@,
            InputSource::SVideo2 => "SVideo2"@,
            InputSource::Tuner1 => "Tuner1"@,
            InputSource::Tuner2 => "Tuner2"@,
            InputSource::Tuner3 => "Tuner3"@,
            InputSource::Component1 => "Component1"@,
            InputSource::Component2 => "Component2"@,
            InputSource::Component3 => "Component3"@,
            InputSource::DisplayPort1 => "DisplayPort1"@,
            InputSource::DisplayPort2 => "DisplayPort2"@,
            InputSource::Hdmi1 => "Hdmi1"@,
            InputSource::Hdmi2 => "Hdmi2"@,
        }
    }

    /// The name of this source, as it is written in the variant.
    pub fn name(self) -> (s: &'static str)
        ensures
            s@ == self.spec_name(),
    {
        match self {
            InputSource::Vga1 => "Vga1",
            InputSource::Vga2 => "Vga2",
            InputSource::Dvi1 => "Dvi1",
            InputSource::Dvi2 => "Dvi2",
            InputSource::Composite1 => "Composite1",
            InputSource::Composite2 => "Composite2",
            InputSource::SVideo1 => "SVideo1",
            InputSource::SVideo2 => "SVideo2",
            InputSource::Tuner1 => "Tuner1",
            InputSource::Tuner2 => "Tuner2",
            InputSource::Tuner3 => "Tuner3",
            InputSource::Component1 => "Component1",
            InputSource::Component2 => "Component2",
            InputSource::Component3 => "Component3",
            InputSource::DisplayPort1 => "DisplayPort1",
            InputSource::DisplayPort2 => "DisplayPort2",
            InputSource::Hdmi1 => "Hdmi1",
            InputSource::Hdmi2 => "Hdmi2",
        }
    }

    /// Every source, in the order of the register values.
    pub open spec fn spec_all() -> Seq<InputSource> {
        seq![
            InputSource::Vga1,
            InputSource::Vga2,
            InputSource::Dvi1,
            InputSource::Dvi2,
            InputSource::Composite1,
            InputSource::Composite2,
            InputSource::SVideo1,
            InputSource::SVideo2,
            InputSource::Tuner1,
            InputSource::Tuner2,
            InputSource::Tuner3,
            InputSource::Component1,
            InputSource::Component2,
            InputSource::Component3,
            InputSource::DisplayPort1,
            InputSource::DisplayPort2,
            InputSource::Hdmi1,
            InputSource::Hdmi2,
        ]
    }

    /// Every source, in the order of the register values: the source with
    /// register value `c` stands at position `c - 1`.
    pub fn all() -> (v: Vec<InputSource>)
        ensures
            v@ == Self::spec_all(),
            v@.len() == 18,
            forall|i: int| 0 <= i < 18 ==> (#[trigger] v@[i]).spec_code() == i + 1,
    {
        let mut v: Vec<InputSource> = Vec::new();
        v.push(InputSource::Vga1);
        v.push(InputSource::Vga2);
        v.push(InputSource::Dvi1);
        v.push(InputSource::Dvi2);
        v.push(InputSource::Composite1);
        v.push(InputSource::Composite2);
        v.push(InputSource::SVideo1);
        v.push(InputSource::SVideo2);
        v.push(InputSource::Tuner1);
        v.push(InputSource::Tuner2);
        v.push(InputSource::Tuner3);
        v.push(InputSource::Component1);
        v.push(InputSource::Component2);
        v.push(InputSource::Component3);
        v.push(InputSource::DisplayPort1);
        v.push(InputSource::DisplayPort2);
        v.push(InputSource::Hdmi1);
        v.push(InputSource::Hdmi2);
        v
    }

    /// The source that a fresh selection starts with: the first of `all`.
    pub open spec fn spec_first() -> InputSource {
        InputSource::Vga1
    }
}

impl Default for InputSource {
    /// The first source.
    fn default() -> (s: InputSource)
        ensures
            s == InputSource::spec_first(),
            s == InputSource::spec_all()[0],
    {
        InputSource::Vga1
    }
}

/// Every source stands in `all`, at the position that its register value
/// gives, so that the register values are distinct and run from 1 to 18.
pub proof fn lemma_all_is_complete(s: InputSource)
    ensures
        1 <= s.spec_code() <= 18,
        InputSource::spec_all().len() == 18,
        InputSource::spec_all()[s.spec_code() - 1] == s,
{
}

} // verus!
