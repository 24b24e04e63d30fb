// Copyright 2024 Mikael Lund aka Wombat
//
// Licensed under the Apache license, version 2.0 (the "license");
// you may not use this file except in compliance with the license.
// You may obtain a copy of the license at
//
//     http://www.apache.org/licenses/license-2.0
//
// Unless required by applicable law or agreed to in writing, software
// distributed under the license is distributed on an "as is" basis,
// without warranties or conditions of any kind, either express or implied.
// See the license for the specific language governing permissions and
// limitations under the license.

//! Raw storage of a palette entry.

use vstd::prelude::*;

verus! {

/// 4 bits per pixel raw data, stored in the low nibble of a byte.
#[derive(Clone, Copy, Debug, PartialEq, Eq, Structural)]
pub struct RawU4 {
    value: u8,
}

impl View for RawU4 {
    type V = u8;

    /// The stored nibble.
    closed spec fn view(&self) -> u8 {
        self.value
    }
}

impl RawU4 {
    /// The four most significant bits of the storage byte are zero.
    #[verifier::type_invariant]
    pub open spec fn wf(self) -> bool {
        self@ <= 15
    }

    /// The raw data that holds the four least significant bits of `value`.
    pub closed spec fn spec_new(value: u8) -> RawU4 {
        RawU4 { value: (value % 16) as u8 }
    }

    /// What `spec_new` stores is the value modulo 16, and nothing else
    /// distinguishes two raw values.
    pub proof fn lemma_spec_new(value: u8)
        ensures
            Self::spec_new(value)@ == value % 16,
            Self::spec_new(value).wf(),
            forall|raw: RawU4| raw@ == value % 16 ==> raw == Self::spec_new(value),
    {
    }

    /// Creates raw data from the four least significant bits of `value`.
    #[verifier::when_used_as_spec(spec_new)]
    pub fn new(value: u8) -> (raw: Self)
        ensures
            raw == Self::spec_new(value),
            raw@ == value % 16,
            raw.wf(),
    {
        assert(value & 0x0f == value % 16) by (bit_vector);
        RawU4 { value: value & 0x0f }
    }

    /// Converts this raw data into its storage byte, whose four most
    /// significant bits are zero.
    pub fn into_inner(self) -> (value: u8)
        ensures
            value == self@,
            value <= 15,
    {
        proof {
            use_type_invariant(self);
        }
        self.value
    }
}

} // verus!
