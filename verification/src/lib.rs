// Copyright 2024 Mikael Lund aka Wombat
//
// Licensed under the Apache license, version 2.0 (the "license");
// you may not use this file except in compliance with the license.
// You may obtain a copy of the license at
//
//     http://www.apache.org/licenses/license-2.0
//
// Unless required by applicable law or agreed to in writing, software
// distributed under the license is distributed on an "as is" basis,
// without warranties or conditions of any kind, either express or implied.
// See the license for the specific language governing permissions and
// limitations under the license.

//! Display drivers for Commodore and Commodore-like systems, together with
//! their colour models.
//!
//! The crate is verified with Verus: every function states what it returns
//! or changes, and is proved to do so. The luma of an RGB colour is computed
//! by `embedded-graphics-core`; the two calls into that crate are taken on
//! trust and marked where they stand, in `c64::color`.

pub mod c64;
