//! The code pages a game's text may be stored in.
use vstd::prelude::*;

verus! {

/// A code page, in the order a game's settings number them.
#[allow(non_camel_case_types)]
#[derive(Clone, Copy, Debug, PartialEq, Eq, Structural)]
pub enum CodePage {
    Ascii,
    Eastern,
    Cyrillic,
    ShiftJIS,
    Big5,
    /// The number of code pages; not one itself.
    __LENGTH,
}

/// The name shown for a code page.
pub open spec fn code_page_label(c: CodePage) -> Seq<char> {
    match c {
        CodePage::Ascii => "ASCII"@,
        CodePage::Eastern => "European"@,
        CodePage::Cyrillic => "Cyrillic"@,
        CodePage::ShiftJIS => "Japanese"@,
        CodePage::Big5 => "Chinese"@,
        CodePage::__LENGTH => Seq::empty(),
    }
}

impl CodePage {
    /// The name shown for this code page.
    pub fn to_str(self) -> (r: &'static str)
        requires
            !(self is __LENGTH),
        ensures
            r@ == code_page_label(self),
    {
        match self {
            CodePage::Ascii => "ASCII",
            CodePage::Eastern => "European",
            CodePage::Cyrillic => "Cyrillic",
            CodePage::ShiftJIS => "Japanese",
            CodePage::Big5 => "Chinese",
            CodePage::__LENGTH => "",
        }
    }
}

} // verus!
