//! Standalone auxiliary functions of this crate.
//!
//! These functions cannot be associated with dedicated data structures or
//! enums, such that they are collected here centrally.

use crate::console::{out, Console};
use vstd::prelude::*;
use vstd::string::StringExecFns;

verus! {

/// The license information of the program.
pub const LICENSE: &'static str = "Copyright (C) 2022 Kevin Matthes\n\
\n\
This program is free software; you can redistribute it and/or modify\n\
it under the terms of the GNU General Public License as published by\n\
the Free Software Foundation; either version 2 of the License, or\n\
(at your option) any later version.\n\
\n\
This program is distributed in the hope that it will be useful,\n\
but WITHOUT ANY WARRANTY; without even the implied warranty of\n\
MERCHANTABILITY or FITNESS FOR A PARTICULAR PURPOSE.  See the\n\
GNU General Public License for more details.\n\
\n\
You should have received a copy of the GNU General Public License along\n\
with this program; if not, write to the Free Software Foundation, Inc.,\n\
51 Franklin Street, Fifth Floor, Boston, MA 02110-1301 USA.";

/// Show the license information: the notice, followed by a line break, is
/// recorded for the standard output.
pub fn license(console: &mut Console)
    ensures
        final(console)@ == old(console)@.push(out(LICENSE@ + "\n"@)),
{
    let mut notice = String::from_str(LICENSE);
    notice.append("\n");
    console.print(notice);
}

} // verus!
