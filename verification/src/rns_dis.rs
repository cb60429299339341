//! Flag sets as the assembler text format writes them.

use crate::flags::{ClassFlags, MethodFlags, has_flag};
use crate::javap_fmt::flags::spec_method_prefix;
use crate::javap_fmt::{add_word, word};
use vstd::prelude::*;

verus! {

/// The class header of the assembler format for the flags `raw` of a plain class:
/// `.class`, then `public`, `abstract` and `final` where they are set.
pub open spec fn spec_class_rns(raw: u16) -> Seq<char> {
    ".class "@ + word(has_flag(raw, 0x0001), "public "@) + word(has_flag(raw, 0x0400), "abstract "@) + word(
        has_flag(raw, 0x0010),
        "final "@,
    )
}

impl ClassFlags {
    /// The class header of the assembler format. Modules, annotation interfaces and
    /// interfaces are not written in it.
    pub fn fmt_rns(&self) -> (r: String)
        requires
            !has_flag(self@, 0x8000),
            !has_flag(self@, 0x2000),
            !has_flag(self@, 0x0200),
        ensures
            r@ == spec_class_rns(self@),
    {
        let mut out = ".class ".to_string();
        add_word(&mut out, self.is_public(), "public ");
        let is_iface_like = self.is_interface() || self.is_annotation() || self.is_module();
        add_word(&mut out, self.is_abstract() && !is_iface_like, "abstract ");
        add_word(&mut out, self.is_final() && !is_iface_like, "final ");
        out
    }
}

impl MethodFlags {
    /// The method modifiers of the assembler format, such as `public static final `.
    pub fn fmt_rns(&self) -> (r: String)
        ensures
            r@ == spec_method_prefix(self@),
    {
        self.javap_fmt_java_like_prefix()
    }
}

} // verus!
