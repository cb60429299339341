//! Access and property flags of classes, nested classes, methods, parameters and fields.

use crate::text::push_char;
use vstd::prelude::*;

verus! {

/// The flag `mask` is set in `raw`.
pub open spec fn has_flag(raw: u16, mask: u16) -> bool {
    raw & mask != 0
}

/// Class access and property modifiers (JVMS Table 4.1-B).
#[derive(Debug, Clone, Copy)]
pub struct ClassFlags(u16);

impl View for ClassFlags {
    type V = u16;

    closed spec fn view(&self) -> u16 {
        self.0
    }
}

impl ClassFlags {
    pub fn new(value: u16) -> (r: Self)
        ensures
            r@ == value,
    {
        Self(value)
    }

    pub fn is_public(&self) -> (r: bool)
        ensures
            r == has_flag(self@, 0x0001),
    {
        self.0 & 0x0001 != 0
    }

    pub fn is_final(&self) -> (r: bool)
        ensures
            r == has_flag(self@, 0x0010),
    {
        self.0 & 0x0010 != 0
    }

    pub fn is_super(&self) -> (r: bool)
        ensures
            r == has_flag(self@, 0x0020),
    {
        self.0 & 0x0020 != 0
    }

    pub fn is_interface(&self) -> (r: bool)
        ensures
            r == has_flag(self@, 0x0200),
    {
        self.0 & 0x0200 != 0
    }

    pub fn is_abstract(&self) -> (r: bool)
        ensures
            r == has_flag(self@, 0x0400),
    {
        self.0 & 0x0400 != 0
    }

    pub fn is_synthetic(&self) -> (r: bool)
        ensures
            r == has_flag(self@, 0x1000),
    {
        self.0 & 0x1000 != 0
    }

    pub fn is_annotation(&self) -> (r: bool)
        ensures
            r == has_flag(self@, 0x2000),
    {
        self.0 & 0x2000 != 0
    }

    pub fn is_enum(&self) -> (r: bool)
        ensures
            r == has_flag(self@, 0x4000),
    {
        self.0 & 0x4000 != 0
    }

    pub fn is_module(&self) -> (r: bool)
        ensures
            r == has_flag(self@, 0x8000),
    {
        self.0 & 0x8000 != 0
    }

    pub fn get_raw(&self) -> (r: &u16)
        ensures
            *r == self@,
    {
        &self.0
    }

    pub fn set_public(&mut self)
        ensures
            final(self)@ == old(self)@ | 0x0001,
    {
        self.0 = self.0 | 0x0001;
    }

    pub fn set_final(&mut self)
        ensures
            final(self)@ == old(self)@ | 0x0010,
    {
        self.0 = self.0 | 0x0010;
    }

    pub fn set_super(&mut self)
        ensures
            final(self)@ == old(self)@ | 0x0020,
    {
        self.0 = self.0 | 0x0020;
    }

    pub fn set_interface(&mut self)
        ensures
            final(self)@ == old(self)@ | 0x0200,
    {
        self.0 = self.0 | 0x0200;
    }

    pub fn set_abstract(&mut self)
        ensures
            final(self)@ == old(self)@ | 0x0400,
    {
        self.0 = self.0 | 0x0400;
    }

    pub fn set_synthetic(&mut self)
        ensures
            final(self)@ == old(self)@ | 0x1000,
    {
        self.0 = self.0 | 0x1000;
    }

    pub fn set_annotation(&mut self)
        ensures
            final(self)@ == old(self)@ | 0x2000,
    {
        self.0 = self.0 | 0x2000;
    }

    pub fn set_enum(&mut self)
        ensures
            final(self)@ == old(self)@ | 0x4000,
    {
        self.0 = self.0 | 0x4000;
    }

    pub fn set_module(&mut self)
        ensures
            final(self)@ == old(self)@ | 0x8000,
    {
        self.0 = self.0 | 0x8000;
    }
}

/// Nested class access and property flags (JVMS Table 4.7.6-A).
#[derive(Debug, Clone, Copy)]
pub struct InnerClassFlags(u16);

impl View for InnerClassFlags {
    type V = u16;

    closed spec fn view(&self) -> u16 {
        self.0
    }
}

impl InnerClassFlags {
    pub fn new(value: u16) -> (r: Self)
        ensures
            r@ == value,
    {
        Self(value)
    }

    pub fn is_public(&self) -> (r: bool)
        ensures
            r == has_flag(self@, 0x0001),
    {
        self.0 & 0x0001 != 0
    }

    pub fn is_private(&self) -> (r: bool)
        ensures
            r == has_flag(self@, 0x0002),
    {
        self.0 & 0x0002 != 0
    }

    pub fn is_protected(&self) -> (r: bool)
        ensures
            r == has_flag(self@, 0x0004),
    {
        self.0 & 0x0004 != 0
    }

    pub fn is_static(&self) -> (r: bool)
        ensures
            r == has_flag(self@, 0x0008),
    {
        self.0 & 0x0008 != 0
    }

    pub fn is_final(&self) -> (r: bool)
        ensures
            r == has_flag(self@, 0x0010),
    {
        self.0 & 0x0010 != 0
    }

    pub fn is_interface(&self) -> (r: bool)
        ensures
            r == has_flag(self@, 0x0200),
    {
        self.0 & 0x0200 != 0
    }

    pub fn is_abstract(&self) -> (r: bool)
        ensures
            r == has_flag(self@, 0x0400),
    {
        self.0 & 0x0400 != 0
    }

    pub fn is_synthetic(&self) -> (r: bool)
        ensures
            r == has_flag(self@, 0x1000),
    {
        self.0 & 0x1000 != 0
    }

    pub fn is_annotation(&self) -> (r: bool)
        ensures
            r == has_flag(self@, 0x2000),
    {
        self.0 & 0x2000 != 0
    }

    pub fn is_enum(&self) -> (r: bool)
        ensures
            r == has_flag(self@, 0x4000),
    {
        self.0 & 0x4000 != 0
    }

    pub fn get_raw(&self) -> (r: &u16)
        ensures
            *r == self@,
    {
        &self.0
    }
}

/// Method access and property flags (JVMS Table 4.6-A).
#[derive(Debug, Clone, Copy)]
pub struct MethodFlags(u16);

impl View for MethodFlags {
    type V = u16;

    closed spec fn view(&self) -> u16 {
        self.0
    }
}

impl MethodFlags {
    pub fn new(value: u16) -> (r: Self)
        ensures
            r@ == value,
    {
        Self(value)
    }

    pub fn is_public(&self) -> (r: bool)
        ensures
            r == has_flag(self@, 0x0001),
    {
        self.0 & 0x0001 != 0
    }

    pub fn is_private(&self) -> (r: bool)
        ensures
            r == has_flag(self@, 0x0002),
    {
        self.0 & 0x0002 != 0
    }

    pub fn is_protected(&self) -> (r: bool)
        ensures
            r == has_flag(self@, 0x0004),
    {
        self.0 & 0x0004 != 0
    }

    pub fn is_static(&self) -> (r: bool)
        ensures
            r == has_flag(self@, 0x0008),
    {
        self.0 & 0x0008 != 0
    }

    pub fn is_final(&self) -> (r: bool)
        ensures
            r == has_flag(self@, 0x0010),
    {
        self.0 & 0x0010 != 0
    }

    pub fn is_synchronized(&self) -> (r: bool)
        ensures
            r == has_flag(self@, 0x0020),
    {
        self.0 & 0x0020 != 0
    }

    pub fn is_bridge(&self) -> (r: bool)
        ensures
            r == has_flag(self@, 0x0040),
    {
        self.0 & 0x0040 != 0
    }

    pub fn is_varargs(&self) -> (r: bool)
        ensures
            r == has_flag(self@, 0x0080),
    {
        self.0 & 0x0080 != 0
    }

    pub fn is_native(&self) -> (r: bool)
        ensures
            r == has_flag(self@, 0x0100),
    {
        self.0 & 0x0100 != 0
    }

    pub fn is_abstract(&self) -> (r: bool)
        ensures
            r == has_flag(self@, 0x0400),
    {
        self.0 & 0x0400 != 0
    }

    pub fn is_strict(&self) -> (r: bool)
        ensures
            r == has_flag(self@, 0x0800),
    {
        self.0 & 0x0800 != 0
    }

    pub fn is_synthetic(&self) -> (r: bool)
        ensures
            r == has_flag(self@, 0x1000),
    {
        self.0 & 0x1000 != 0
    }

    pub fn get_raw(&self) -> (r: &u16)
        ensures
            *r == self@,
    {
        &self.0
    }
}

/// Method parameter flags (JVMS 4.7.24).
#[derive(Debug, Clone, Copy)]
pub struct MethodParamFlags(u16);

impl View for MethodParamFlags {
    type V = u16;

    closed spec fn view(&self) -> u16 {
        self.0
    }
}

impl MethodParamFlags {
    pub fn new(value: u16) -> (r: Self)
        ensures
            r@ == value,
    {
        Self(value)
    }

    pub fn is_final(&self) -> (r: bool)
        ensures
            r == has_flag(self@, 0x0010),
    {
        self.0 & 0x0010 != 0
    }

    pub fn is_synthetic(&self) -> (r: bool)
        ensures
            r == has_flag(self@, 0x1000),
    {
        self.0 & 0x1000 != 0
    }

    pub fn is_mandated(&self) -> (r: bool)
        ensures
            r == has_flag(self@, 0x8000),
    {
        self.0 & 0x8000 != 0
    }

    pub fn get_raw(&self) -> (r: &u16)
        ensures
            *r == self@,
    {
        &self.0
    }
}

/// Field access and property flags (JVMS Table 4.5-A).
#[derive(Debug, Clone, Copy)]
pub struct FieldFlags(u16);

impl View for FieldFlags {
    type V = u16;

    closed spec fn view(&self) -> u16 {
        self.0
    }
}

impl FieldFlags {
    pub fn new(value: u16) -> (r: Self)
        ensures
            r@ == value,
    {
        Self(value)
    }

    pub fn is_public(&self) -> (r: bool)
        ensures
            r == has_flag(self@, 0x0001),
    {
        self.0 & 0x0001 != 0
    }

    pub fn is_private(&self) -> (r: bool)
        ensures
            r == has_flag(self@, 0x0002),
    {
        self.0 & 0x0002 != 0
    }

    pub fn is_protected(&self) -> (r: bool)
        ensures
            r == has_flag(self@, 0x0004),
    {
        self.0 & 0x0004 != 0
    }

    pub fn is_static(&self) -> (r: bool)
        ensures
            r == has_flag(self@, 0x0008),
    {
        self.0 & 0x0008 != 0
    }

    pub fn is_final(&self) -> (r: bool)
        ensures
            r == has_flag(self@, 0x0010),
    {
        self.0 & 0x0010 != 0
    }

    pub fn is_volatile(&self) -> (r: bool)
        ensures
            r == has_flag(self@, 0x0040),
    {
        self.0 & 0x0040 != 0
    }

    pub fn is_transient(&self) -> (r: bool)
        ensures
            r == has_flag(self@, 0x0080),
    {
        self.0 & 0x0080 != 0
    }

    pub fn is_synthetic(&self) -> (r: bool)
        ensures
            r == has_flag(self@, 0x1000),
    {
        self.0 & 0x1000 != 0
    }

    pub fn is_enum(&self) -> (r: bool)
        ensures
            r == has_flag(self@, 0x4000),
    {
        self.0 & 0x4000 != 0
    }

    pub fn get_raw(&self) -> (r: &u16)
        ensures
            *r == self@,
    {
        &self.0
    }
}

/// Setting the flag `mask` makes it set and leaves every flag that does not share
/// a bit with `mask` as it was.
pub proof fn lemma_set_flag(raw: u16, mask: u16, probe: u16)
    requires
        mask != 0,
        probe & mask == 0,
    ensures
        has_flag(raw | mask, mask),
        has_flag(raw | mask, probe) == has_flag(raw, probe),
{
    assert(mask != 0 ==> (raw | mask) & mask != 0) by (bit_vector);
    assert(probe & mask == 0 ==> (((raw | mask) & probe != 0) == (raw & probe != 0))) by (bit_vector);
}

} // verus!
