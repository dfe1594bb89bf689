//! The built-in texts: five licenses and a README. Each is a template that
//! the context is substituted into.

use vstd::prelude::*;
use crate::types::{License, LicenseView};

verus! {

/// The BSD license with three clauses.
pub const BSD3: &'static str = "\
Copyright (c) {{year}}, {{name}}\n\
All rights reserved.\n\
\n\
Redistribution and use in source and binary forms, with or without\n\
modification, are permitted provided that the following conditions are met:\n\
\n\
1. Redistributions of source code must retain the above copyright notice, this\n   \
list of conditions and the following disclaimer.\n\
\n\
2. Redistributions in binary form must reproduce the above copyright notice,\n   \
this list of conditions and the following disclaimer in the documentation\n   \
and/or other materials provided with the distribution.\n\
\n\
3. Neither the name of the copyright holder nor the names of its\n   \
contributors may be used to endorse or promote products derived from\n   \
this software without specific prior written permission.\n\
\n\
THIS SOFTWARE IS PROVIDED BY THE COPYRIGHT HOLDERS AND CONTRIBUTORS \"AS IS\"\n\
AND ANY EXPRESS OR IMPLIED WARRANTIES, INCLUDING, BUT NOT LIMITED TO, THE\n\
IMPLIED WARRANTIES OF MERCHANTABILITY AND FITNESS FOR A PARTICULAR PURPOSE ARE\n\
DISCLAIMED. IN NO EVENT SHALL THE COPYRIGHT HOLDER OR CONTRIBUTORS BE LIABLE\n\
FOR ANY DIRECT, INDIRECT, INCIDENTAL, SPECIAL, EXEMPLARY, OR CONSEQUENTIAL\n\
DAMAGES (INCLUDING, BUT NOT LIMITED TO, PROCUREMENT OF SUBSTITUTE GOODS OR\n\
SERVICES; LOSS OF USE, DATA, OR PROFITS; OR BUSINESS INTERRUPTION) HOWEVER\n\
CAUSED AND ON ANY THEORY OF LIABILITY, WHETHER IN CONTRACT, STRICT LIABILITY,\n\
OR TORT (INCLUDING NEGLIGENCE OR OTHERWISE) ARISING IN ANY WAY OUT OF THE USE\n\
OF THIS SOFTWARE, EVEN IF ADVISED OF THE POSSIBILITY OF SUCH DAMAGE.\n";

/// The BSD license with two clauses.
pub const BSD: &'static str = "\
Copyright (c) {{year}}, {{name}}\n\
All rights reserved.\n\
\n\
Redistribution and use in source and binary forms, with or without\n\
modification, are permitted provided that the following conditions are met:\n\
\n\
1. Redistributions of source code must retain the above copyright notice, this\n   \
list of conditions and the following disclaimer.\n\
\n\
2. Redistributions in binary form must reproduce the above copyright notice,\n   \
this list of conditions and the following disclaimer in the documentation\n   \
and/or other materials provided with the distribution.\n\
\n\
THIS SOFTWARE IS PROVIDED BY THE COPYRIGHT HOLDERS AND CONTRIBUTORS \"AS IS\"\n\
AND ANY EXPRESS OR IMPLIED WARRANTIES, INCLUDING, BUT NOT LIMITED TO, THE\n\
IMPLIED WARRANTIES OF MERCHANTABILITY AND FITNESS FOR A PARTICULAR PURPOSE ARE\n\
DISCLAIMED. IN NO EVENT SHALL THE COPYRIGHT HOLDER OR CONTRIBUTORS BE LIABLE\n\
FOR ANY DIRECT, INDIRECT, INCIDENTAL, SPECIAL, EXEMPLARY, OR CONSEQUENTIAL\n\
DAMAGES (INCLUDING, BUT NOT LIMITED TO, PROCUREMENT OF SUBSTITUTE GOODS OR\n\
SERVICES; LOSS OF USE, DATA, OR PROFITS; OR BUSINESS INTERRUPTION) HOWEVER\n\
CAUSED AND ON ANY THEORY OF LIABILITY, WHETHER IN CONTRACT, STRICT LIABILITY,\n\
OR TORT (INCLUDING NEGLIGENCE OR OTHERWISE) ARISING IN ANY WAY OUT OF THE USE\n\
OF THIS SOFTWARE, EVEN IF ADVISED OF THE POSSIBILITY OF SUCH DAMAGE.\n";

/// The notice that places a work under the GNU General Public License,
/// version 3.
pub const GPL3: &'static str = "\
{{project}}\n\
Copyright (C) {{year}} {{name}}\n\
\n\
This program is free software: you can redistribute it and/or modify\n\
it under the terms of the GNU General Public License as published by\n\
the Free Software Foundation, either version 3 of the License, or\n\
(at your option) any later version.\n\
\n\
This program is distributed in the hope that it will be useful,\n\
but WITHOUT ANY WARRANTY; without even the implied warranty of\n\
MERCHANTABILITY or FITNESS FOR A PARTICULAR PURPOSE.  See the\n\
GNU General Public License for more details.\n\
\n\
You should have received a copy of the GNU General Public License\n\
along with this program.  If not, see <https://www.gnu.org/licenses/>.\n";

/// The MIT license.
pub const MIT: &'static str = "\
Copyright (c) {{year}} {{name}}\n\
\n\
Permission is hereby granted, free of charge, to any person obtaining a copy\n\
of this software and associated documentation files (the \"Software\"), to deal\n\
in the Software without restriction, including without limitation the rights\n\
to use, copy, modify, merge, publish, distribute, sublicense, and/or sell\n\
copies of the Software, and to permit persons to whom the Software is\n\
furnished to do so, subject to the following conditions:\n\
\n\
The above copyright notice and this permission notice shall be included in all\n\
copies or substantial portions of the Software.\n\
\n\
THE SOFTWARE IS PROVIDED \"AS IS\", WITHOUT WARRANTY OF ANY KIND, EXPRESS OR\n\
IMPLIED, INCLUDING BUT NOT LIMITED TO THE WARRANTIES OF MERCHANTABILITY,\n\
FITNESS FOR A PARTICULAR PURPOSE AND NONINFRINGEMENT. IN NO EVENT SHALL THE\n\
AUTHORS OR COPYRIGHT HOLDERS BE LIABLE FOR ANY CLAIM, DAMAGES OR OTHER\n\
LIABILITY, WHETHER IN AN ACTION OF CONTRACT, TORT OR OTHERWISE, ARISING FROM,\n\
OUT OF OR IN CONNECTION WITH THE SOFTWARE OR THE USE OR OTHER DEALINGS IN THE\n\
SOFTWARE.\n";

/// The notice that reserves all rights.
pub const ALL_RIGHTS_RESERVED: &'static str = "\
Copyright (c) {{year}} {{name}}\n\
\n\
All rights reserved.\n";

/// The README of a new project.
pub const README: &'static str = "\
# {{project}}\n\
\n\
Version {{version}}, by {{name}}.\n";

/// The built-in text of a license; none for a license outside the built-in
/// set.
pub open spec fn license_template(license: LicenseView) -> Option<Seq<char>> {
    match license {
        LicenseView::Bsd3 => Some(BSD3@),
        LicenseView::Bsd => Some(BSD@),
        LicenseView::Gpl3 => Some(GPL3@),
        LicenseView::Mit => Some(MIT@),
        LicenseView::AllRightsReserved => Some(ALL_RIGHTS_RESERVED@),
        LicenseView::Unknown(_) => None,
    }
}

/// The view of an optional text.
pub open spec fn optional_text(text: Option<&'static str>) -> Option<Seq<char>> {
    match text {
        Some(t) => Some(t@),
        None => None,
    }
}

/// The built-in text of a license; none for a license outside the built-in
/// set, for which no license file is written.
pub fn license_text(license: &License) -> (text: Option<&'static str>)
    ensures
        optional_text(text) == license_template(license@),
{
    match license {
        License::Bsd3 => Some(BSD3),
        License::Bsd => Some(BSD),
        License::Gpl3 => Some(GPL3),
        License::Mit => Some(MIT),
        License::AllRightsReserved => Some(ALL_RIGHTS_RESERVED),
        License::Unknown(_) => None,
    }
}

} // verus!
