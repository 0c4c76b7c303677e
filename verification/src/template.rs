//! The static template body bound to each license.
//!
//! A body is plain text holding the placeholder tokens that the renderer
//! substitutes; the display name is not part of the body, the renderer
//! prepends it.  Not every body uses every placeholder, and a few use
//! none at all.

use vstd::prelude::*;
use crate::license::License;

verus! {

/// The template body of each license, as the renderer sees it.
pub open spec fn spec_body(l: License) -> Seq<char> {
    match l {
        License::BSD0 => "Copyright (C) {year} {name} {email}\n\nPermission to use, copy, modify, and/or distribute this software for any purpose with or without fee is hereby granted.\n\nTHE SOFTWARE IS PROVIDED \"AS IS\" AND THE AUTHOR DISCLAIMS ALL WARRANTIES WITH REGARD TO THIS SOFTWARE INCLUDING ALL IMPLIED WARRANTIES OF MERCHANTABILITY AND FITNESS.\n"@,
        License::AFL => "Copyright (c) {year} {name} {email}\n\nLicensed under the Academic Free License version 3.0. This Original Work is provided under the terms of that license, which grants a worldwide, royalty-free, non-exclusive, sublicensable license to use, copy, distribute, and prepare derivative works of the Original Work.\n"@,
        License::AGPL => "{project}\nCopyright (C) {year} {name} {email}\n\nThis program is free software: you can redistribute it and/or modify it under the terms of the GNU Affero General Public License as published by the Free Software Foundation, either version 3 of the License, or (at your option) any later version.\n\nThis program is distributed in the hope that it will be useful, but WITHOUT ANY WARRANTY. See the GNU Affero General Public License for more details.\n"@,
        License::Apache => "{project} {url}\nCopyright {year} {name}\n\nLicensed under the Apache License, Version 2.0 (the \"License\"); you may not use this work except in compliance with the License. You may obtain a copy of the License at\n\n    http://www.apache.org/licenses/LICENSE-2.0\n\nUnless required by applicable law or agreed to in writing, software distributed under the License is distributed on an \"AS IS\" BASIS, WITHOUT WARRANTIES OR CONDITIONS OF ANY KIND, either express or implied.\n"@,
        License::Artistic => "Copyright (c) {year} {name} {email}\n\nThis package is distributed under the Artistic License 2.0. Everyone is permitted to copy and distribute verbatim copies of this license document, and aggregation of this Package with a commercial distribution is always permitted provided the use of this Package is embedded.\n"@,
        License::BlueOak => "This project is distributed under the Blue Oak Model License 1.0.0.\n\nEach contributor licenses you to do everything with this software that would otherwise infringe that contributor's copyright in it. As far as the law allows, this software comes as is, without any warranty or condition.\n"@,
        License::BSD2Patent => "Copyright (c) {year} {name} {email}\n\nRedistribution and use in source and binary forms, with or without modification, are permitted provided that the conditions of the BSD-2-Clause Plus Patent License are met, including retention of this copyright notice. Subject to those terms, each copyright holder also grants you a perpetual patent license for the software.\n"@,
        License::BSD2 => "Copyright (c) {year} {name} {email}\n\nRedistribution and use in source and binary forms, with or without modification, are permitted provided that redistributions retain this copyright notice, this list of conditions and the disclaimer of the BSD 2-Clause License.\n"@,
        License::BSD3Clear => "Copyright (c) {year} {name} {email}\n\nRedistribution and use in source and binary forms, with or without modification, are permitted under the BSD 3-Clause Clear License provided that the conditions are met. No express or implied patent licenses are granted by this license.\n"@,
        License::BSD3 => "Copyright (c) {year} {name} {email}\n\nRedistribution and use in source and binary forms, with or without modification, are permitted under the BSD 3-Clause License provided that the conditions are met, and neither the name of the copyright holder nor the names of its contributors may be used to endorse derived products without permission.\n"@,
        License::BSD4 => "Copyright (c) {year} {name} {email}\n\nRedistribution and use in source and binary forms, with or without modification, are permitted under the BSD 4-Clause License provided that the conditions are met, including that advertising materials mentioning features of this software display an acknowledgement by the copyright holder.\n"@,
        License::BSL => "Copyright (c) {year} {name} {email}\n\nPermission is hereby granted, free of charge, under the Boost Software License 1.0, to any person or organization obtaining a copy of the software to use, reproduce, display, distribute, execute, and transmit the software, all subject to the license's requirements on covered works.\n"@,
        License::CCBY => "{project} (c) {year} {name}\n\nThis work is licensed under the Creative Commons Attribution 4.0 International License. You are free to share and adapt the material for any purpose, even commercially, as long as appropriate credit is given.\n"@,
        License::CCBYSA => "{project} (c) {year} {name}\n\nThis work is licensed under the Creative Commons Attribution Share Alike 4.0 International License. You are free to share and adapt the material for any purpose, as long as appropriate credit is given and contributions are distributed under the same license.\n"@,
        License::CC0 => "To the extent possible under law, the author(s) have dedicated all copyright and related and neighboring rights to this work to the public domain worldwide under the CC0 1.0 Universal dedication. This work is distributed without any warranty.\n"@,
        License::Cecill => "Copyright (c) {year} {name} {email}\n\nThis software is governed by the CeCILL license version 2.1 under French law and abiding by the rules of distribution of free software. You can use, modify and/or redistribute the software under the terms of the CeCILL license as circulated by CEA, CNRS and INRIA.\n"@,
        License::CernOHLP => "Copyright (c) {year} {name} {email}\n\nThis source describes Open Hardware and is licensed under the CERN Open Hardware Licence Version 2 - Permissive. You may redistribute and modify this source and make products using it under the terms of that licence.\n"@,
        License::CernOHLS => "Copyright (c) {year} {name} {email}\n\nThis source describes Open Hardware and is licensed under the CERN Open Hardware Licence Version 2 - Strongly Reciprocal. You may redistribute and modify this source and make products using it under the terms of that licence, and covered sources must remain available.\n"@,
        License::CernOHLW => "Copyright (c) {year} {name} {email}\n\nThis source describes Open Hardware and is licensed under the CERN Open Hardware Licence Version 2 - Weakly Reciprocal. You may redistribute and modify this source and make products using it under the terms of that licence.\n"@,
        License::ECL => "Copyright (c) {year} {name} {email}\n\nLicensed under the Educational Community License, Version 2.0; you may not use this work except in compliance with the License. Software distributed under the License is distributed on an \"AS IS\" basis, without warranties or conditions of any kind.\n"@,
        License::EPL1 => "Copyright (c) {year} {name} {email}\n\nThis program and the accompanying materials are made available under the terms of the Eclipse Public License v1.0 which accompanies this distribution.\n"@,
        License::EPL2 => "Copyright (c) {year} {name} {email}\n\nThis program and the accompanying materials are made available under the terms of the Eclipse Public License 2.0 which is available at https://www.eclipse.org/legal/epl-2.0/.\n"@,
        License::EUPL11 => "Copyright (c) {year} {name} {email}\n\nLicensed under the European Union Public Licence v. 1.1. You may not use this work except in compliance with the Licence. The Licence is available in the official languages of the European Union.\n"@,
        License::EUPL12 => "Copyright (c) {year} {name} {email}\n\nLicensed under the European Union Public Licence v. 1.2. You may not use this work except in compliance with the Licence. The Licence is available in the official languages of the European Union.\n"@,
        License::GFDL => "{project}\nCopyright (C) {year} {name} {email}\n\nPermission is granted to copy, distribute and/or modify this document under the terms of the GNU Free Documentation License, Version 1.3 or any later version published by the Free Software Foundation; with no Invariant Sections, no Front-Cover Texts, and no Back-Cover Texts.\n"@,
        License::GPL2 => "{project}\nCopyright (C) {year} {name} {email}\n\nThis program is free software; you can redistribute it and/or modify it under the terms of the GNU General Public License as published by the Free Software Foundation; either version 2 of the License, or (at your option) any later version.\n\nThis program is distributed in the hope that it will be useful, but WITHOUT ANY WARRANTY. See the GNU General Public License for more details.\n"@,
        License::GPL3 => "{project}\nCopyright (C) {year} {name} {email}\n\nThis program is free software: you can redistribute it and/or modify it under the terms of the GNU General Public License as published by the Free Software Foundation, either version 3 of the License, or (at your option) any later version.\n\nThis program is distributed in the hope that it will be useful, but WITHOUT ANY WARRANTY. See the GNU General Public License for more details.\n"@,
        License::ISC => "Copyright (c) {year} {name} {email}\n\nPermission to use, copy, modify, and/or distribute this software for any purpose with or without fee is hereby granted, provided that the above copyright notice and this permission notice appear in all copies.\n"@,
        License::LGPL2 => "{project}\nCopyright (C) {year} {name} {email}\n\nThis library is free software; you can redistribute it and/or modify it under the terms of the GNU Lesser General Public License as published by the Free Software Foundation; either version 2.1 of the License, or (at your option) any later version.\n"@,
        License::LGPL3 => "{project}\nCopyright (C) {year} {name} {email}\n\nThis library is free software: you can redistribute it and/or modify it under the terms of the GNU Lesser General Public License as published by the Free Software Foundation, either version 3 of the License, or (at your option) any later version.\n"@,
        License::LPPL => "Copyright (c) {year} {name} {email}\n\nThis work may be distributed and/or modified under the conditions of the LaTeX Project Public License, either version 1.3c of this license or (at your option) any later version. The latest version of this license is in http://www.latex-project.org/lppl.txt.\n"@,
        License::MIT0 => "Copyright (c) {year} {name} {email}\n\nPermission is hereby granted, free of charge, to any person obtaining a copy of this software and associated documentation files (the \"Software\"), to deal in the Software without restriction, without requirement of attribution. THE SOFTWARE IS PROVIDED \"AS IS\", WITHOUT WARRANTY OF ANY KIND.\n"@,
        License::MIT => "Copyright (c) {year} {name} {email}\n\nPermission is hereby granted, free of charge, to any person obtaining a copy of this software and associated documentation files (the \"Software\"), to deal in the Software without restriction, subject to the condition that the above copyright notice and this permission notice shall be included in all copies or substantial portions of the Software.\n\nTHE SOFTWARE IS PROVIDED \"AS IS\", WITHOUT WARRANTY OF ANY KIND.\n"@,
        License::MPL => "Copyright (c) {year} {name} {email}\n\nThis Source Code Form is subject to the terms of the Mozilla Public License, v. 2.0. If a copy of the MPL was not distributed with this file, you can obtain one at https://mozilla.org/MPL/2.0/.\n"@,
        License::MSPL => "Copyright (c) {year} {name} {email}\n\nThis software is licensed under the Microsoft Public License (Ms-PL). The license governs use of the accompanying software; by using the software, you accept this license.\n"@,
        License::MSRL => "Copyright (c) {year} {name} {email}\n\nThis software is licensed under the Microsoft Reciprocal License (Ms-RL). The license governs use of the accompanying software; by using the software, you accept this license, and reciprocal obligations apply to distributed modifications.\n"@,
        License::MulanPSL => "Copyright (c) {year} {name} {email}\n\n{project} is licensed under Mulan PSL v2. You can use this software according to the terms and conditions of the Mulan PSL v2. THIS SOFTWARE IS PROVIDED ON AN \"AS IS\" BASIS, WITHOUT WARRANTIES OF ANY KIND, EITHER EXPRESS OR IMPLIED.\n"@,
        License::NCSA => "Copyright (c) {year} {name} {email}\n\nPermission is hereby granted, free of charge, under the University of Illinois/NCSA Open Source License, to any person obtaining a copy of this software and associated documentation files, to deal with the Software without restriction, subject to its conditions on redistributions.\n"@,
        License::ODbL => "Copyright (c) {year} {name} {email}\n\nThis database is made available under the Open Database License v1.0. Any rights in individual contents of the database are licensed under the Database Contents License. You are free to share, create and adapt, as long as you attribute, share alike, and keep open.\n"@,
        License::OFL => "Copyright (c) {year} {name} {email}\n\nThis Font Software is licensed under the SIL Open Font License, Version 1.1. The fonts, including any derivative works, can be bundled, embedded, redistributed and/or sold with any software provided that any reserved names are not used by derivative works.\n"@,
        License::OSL => "Copyright (c) {year} {name} {email}\n\nLicensed under the Open Software License version 3.0. This Original Work is provided under the terms of that license, and any external deployment of a derivative work counts as a distribution.\n"@,
        License::PostgreSQL => "Copyright (c) {year} {name} {email}\n\nPermission to use, copy, modify, and distribute this software and its documentation for any purpose, without fee, and without a written agreement is hereby granted, provided that this copyright notice and this paragraph appear in all copies.\n"@,
        License::Unlicense => "This is free and unencumbered software released into the public domain.\n\nAnyone is free to copy, modify, publish, use, compile, sell, or distribute this software, either in source code form or as a compiled binary, for any purpose, commercial or non-commercial, and by any means.\n\nFor more information, please refer to https://unlicense.org\n"@,
        License::UPL => "Copyright (c) {year} {name} {email}\n\nThe Universal Permissive License (UPL), Version 1.0: subject to the condition set forth below, permission is hereby granted to any person obtaining a copy of this software to deal in both the Software and the Larger Works, without restriction.\n"@,
        License::Vim => "Copyright (c) {year} {name} {email}\n\nThis work is distributed under the Vim License. Vim is Charityware; you can use and copy it as much as you like, but you are encouraged to make a donation for needy children in Uganda.\n"@,
        License::WTFPL => "Everyone is permitted to copy and distribute verbatim or modified copies of this license document, and changing it is allowed as long as the name is changed.\n\nTERMS AND CONDITIONS FOR COPYING, DISTRIBUTION AND MODIFICATION:\n0. You just DO WHAT THE FUCK YOU WANT TO.\n"@,
        License::Zlib => "Copyright (c) {year} {name} {email}\n\nThis software is provided \"as-is\", without any express or implied warranty. Permission is granted to anyone to use this software for any purpose, including commercial applications, and to alter it and redistribute it freely, subject to the origin and notice restrictions of the zlib License.\n"@,
    }
}

/// The template body of each license.
pub fn body_text(l: License) -> (t: &'static str)
    ensures
        t@ == spec_body(l),
{
    match l {
        License::BSD0 => "Copyright (C) {year} {name} {email}\n\nPermission to use, copy, modify, and/or distribute this software for any purpose with or without fee is hereby granted.\n\nTHE SOFTWARE IS PROVIDED \"AS IS\" AND THE AUTHOR DISCLAIMS ALL WARRANTIES WITH REGARD TO THIS SOFTWARE INCLUDING ALL IMPLIED WARRANTIES OF MERCHANTABILITY AND FITNESS.\n",
        License::AFL => "Copyright (c) {year} {name} {email}\n\nLicensed under the Academic Free License version 3.0. This Original Work is provided under the terms of that license, which grants a worldwide, royalty-free, non-exclusive, sublicensable license to use, copy, distribute, and prepare derivative works of the Original Work.\n",
        License::AGPL => "{project}\nCopyright (C) {year} {name} {email}\n\nThis program is free software: you can redistribute it and/or modify it under the terms of the GNU Affero General Public License as published by the Free Software Foundation, either version 3 of the License, or (at your option) any later version.\n\nThis program is distributed in the hope that it will be useful, but WITHOUT ANY WARRANTY. See the GNU Affero General Public License for more details.\n",
        License::Apache => "{project} {url}\nCopyright {year} {name}\n\nLicensed under the Apache License, Version 2.0 (the \"License\"); you may not use this work except in compliance with the License. You may obtain a copy of the License at\n\n    http://www.apache.org/licenses/LICENSE-2.0\n\nUnless required by applicable law or agreed to in writing, software distributed under the License is distributed on an \"AS IS\" BASIS, WITHOUT WARRANTIES OR CONDITIONS OF ANY KIND, either express or implied.\n",
        License::Artistic => "Copyright (c) {year} {name} {email}\n\nThis package is distributed under the Artistic License 2.0. Everyone is permitted to copy and distribute verbatim copies of this license document, and aggregation of this Package with a commercial distribution is always permitted provided the use of this Package is embedded.\n",
        License::BlueOak => "This project is distributed under the Blue Oak Model License 1.0.0.\n\nEach contributor licenses you to do everything with this software that would otherwise infringe that contributor's copyright in it. As far as the law allows, this software comes as is, without any warranty or condition.\n",
        License::BSD2Patent => "Copyright (c) {year} {name} {email}\n\nRedistribution and use in source and binary forms, with or without modification, are permitted provided that the conditions of the BSD-2-Clause Plus Patent License are met, including retention of this copyright notice. Subject to those terms, each copyright holder also grants you a perpetual patent license for the software.\n",
        License::BSD2 => "Copyright (c) {year} {name} {email}\n\nRedistribution and use in source and binary forms, with or without modification, are permitted provided that redistributions retain this copyright notice, this list of conditions and the disclaimer of the BSD 2-Clause License.\n",
        License::BSD3Clear => "Copyright (c) {year} {name} {email}\n\nRedistribution and use in source and binary forms, with or without modification, are permitted under the BSD 3-Clause Clear License provided that the conditions are met. No express or implied patent licenses are granted by this license.\n",
        License::BSD3 => "Copyright (c) {year} {name} {email}\n\nRedistribution and use in source and binary forms, with or without modification, are permitted under the BSD 3-Clause License provided that the conditions are met, and neither the name of the copyright holder nor the names of its contributors may be used to endorse derived products without permission.\n",
        License::BSD4 => "Copyright (c) {year} {name} {email}\n\nRedistribution and use in source and binary forms, with or without modification, are permitted under the BSD 4-Clause License provided that the conditions are met, including that advertising materials mentioning features of this software display an acknowledgement by the copyright holder.\n",
        License::BSL => "Copyright (c) {year} {name} {email}\n\nPermission is hereby granted, free of charge, under the Boost Software License 1.0, to any person or organization obtaining a copy of the software to use, reproduce, display, distribute, execute, and transmit the software, all subject to the license's requirements on covered works.\n",
        License::CCBY => "{project} (c) {year} {name}\n\nThis work is licensed under the Creative Commons Attribution 4.0 International License. You are free to share and adapt the material for any purpose, even commercially, as long as appropriate credit is given.\n",
        License::CCBYSA => "{project} (c) {year} {name}\n\nThis work is licensed under the Creative Commons Attribution Share Alike 4.0 International License. You are free to share and adapt the material for any purpose, as long as appropriate credit is given and contributions are distributed under the same license.\n",
        License::CC0 => "To the extent possible under law, the author(s) have dedicated all copyright and related and neighboring rights to this work to the public domain worldwide under the CC0 1.0 Universal dedication. This work is distributed without any warranty.\n",
        License::Cecill => "Copyright (c) {year} {name} {email}\n\nThis software is governed by the CeCILL license version 2.1 under French law and abiding by the rules of distribution of free software. You can use, modify and/or redistribute the software under the terms of the CeCILL license as circulated by CEA, CNRS and INRIA.\n",
        License::CernOHLP => "Copyright (c) {year} {name} {email}\n\nThis source describes Open Hardware and is licensed under the CERN Open Hardware Licence Version 2 - Permissive. You may redistribute and modify this source and make products using it under the terms of that licence.\n",
        License::CernOHLS => "Copyright (c) {year} {name} {email}\n\nThis source describes Open Hardware and is licensed under the CERN Open Hardware Licence Version 2 - Strongly Reciprocal. You may redistribute and modify this source and make products using it under the terms of that licence, and covered sources must remain available.\n",
        License::CernOHLW => "Copyright (c) {year} {name} {email}\n\nThis source describes Open Hardware and is licensed under the CERN Open Hardware Licence Version 2 - Weakly Reciprocal. You may redistribute and modify this source and make products using it under the terms of that licence.\n",
        License::ECL => "Copyright (c) {year} {name} {email}\n\nLicensed under the Educational Community License, Version 2.0; you may not use this work except in compliance with the License. Software distributed under the License is distributed on an \"AS IS\" basis, without warranties or conditions of any kind.\n",
        License::EPL1 => "Copyright (c) {year} {name} {email}\n\nThis program and the accompanying materials are made available under the terms of the Eclipse Public License v1.0 which accompanies this distribution.\n",
        License::EPL2 => "Copyright (c) {year} {name} {email}\n\nThis program and the accompanying materials are made available under the terms of the Eclipse Public License 2.0 which is available at https://www.eclipse.org/legal/epl-2.0/.\n",
        License::EUPL11 => "Copyright (c) {year} {name} {email}\n\nLicensed under the European Union Public Licence v. 1.1. You may not use this work except in compliance with the Licence. The Licence is available in the official languages of the European Union.\n",
        License::EUPL12 => "Copyright (c) {year} {name} {email}\n\nLicensed under the European Union Public Licence v. 1.2. You may not use this work except in compliance with the Licence. The Licence is available in the official languages of the European Union.\n",
        License::GFDL => "{project}\nCopyright (C) {year} {name} {email}\n\nPermission is granted to copy, distribute and/or modify this document under the terms of the GNU Free Documentation License, Version 1.3 or any later version published by the Free Software Foundation; with no Invariant Sections, no Front-Cover Texts, and no Back-Cover Texts.\n",
        License::GPL2 => "{project}\nCopyright (C) {year} {name} {email}\n\nThis program is free software; you can redistribute it and/or modify it under the terms of the GNU General Public License as published by the Free Software Foundation; either version 2 of the License, or (at your option) any later version.\n\nThis program is distributed in the hope that it will be useful, but WITHOUT ANY WARRANTY. See the GNU General Public License for more details.\n",
        License::GPL3 => "{project}\nCopyright (C) {year} {name} {email}\n\nThis program is free software: you can redistribute it and/or modify it under the terms of the GNU General Public License as published by the Free Software Foundation, either version 3 of the License, or (at your option) any later version.\n\nThis program is distributed in the hope that it will be useful, but WITHOUT ANY WARRANTY. See the GNU General Public License for more details.\n",
        License::ISC => "Copyright (c) {year} {name} {email}\n\nPermission to use, copy, modify, and/or distribute this software for any purpose with or without fee is hereby granted, provided that the above copyright notice and this permission notice appear in all copies.\n",
        License::LGPL2 => "{project}\nCopyright (C) {year} {name} {email}\n\nThis library is free software; you can redistribute it and/or modify it under the terms of the GNU Lesser General Public License as published by the Free Software Foundation; either version 2.1 of the License, or (at your option) any later version.\n",
        License::LGPL3 => "{project}\nCopyright (C) {year} {name} {email}\n\nThis library is free software: you can redistribute it and/or modify it under the terms of the GNU Lesser General Public License as published by the Free Software Foundation, either version 3 of the License, or (at your option) any later version.\n",
        License::LPPL => "Copyright (c) {year} {name} {email}\n\nThis work may be distributed and/or modified under the conditions of the LaTeX Project Public License, either version 1.3c of this license or (at your option) any later version. The latest version of this license is in http://www.latex-project.org/lppl.txt.\n",
        License::MIT0 => "Copyright (c) {year} {name} {email}\n\nPermission is hereby granted, free of charge, to any person obtaining a copy of this software and associated documentation files (the \"Software\"), to deal in the Software without restriction, without requirement of attribution. THE SOFTWARE IS PROVIDED \"AS IS\", WITHOUT WARRANTY OF ANY KIND.\n",
        License::MIT => "Copyright (c) {year} {name} {email}\n\nPermission is hereby granted, free of charge, to any person obtaining a copy of this software and associated documentation files (the \"Software\"), to deal in the Software without restriction, subject to the condition that the above copyright notice and this permission notice shall be included in all copies or substantial portions of the Software.\n\nTHE SOFTWARE IS PROVIDED \"AS IS\", WITHOUT WARRANTY OF ANY KIND.\n",
        License::MPL => "Copyright (c) {year} {name} {email}\n\nThis Source Code Form is subject to the terms of the Mozilla Public License, v. 2.0. If a copy of the MPL was not distributed with this file, you can obtain one at https://mozilla.org/MPL/2.0/.\n",
        License::MSPL => "Copyright (c) {year} {name} {email}\n\nThis software is licensed under the Microsoft Public License (Ms-PL). The license governs use of the accompanying software; by using the software, you accept this license.\n",
        License::MSRL => "Copyright (c) {year} {name} {email}\n\nThis software is licensed under the Microsoft Reciprocal License (Ms-RL). The license governs use of the accompanying software; by using the software, you accept this license, and reciprocal obligations apply to distributed modifications.\n",
        License::MulanPSL => "Copyright (c) {year} {name} {email}\n\n{project} is licensed under Mulan PSL v2. You can use this software according to the terms and conditions of the Mulan PSL v2. THIS SOFTWARE IS PROVIDED ON AN \"AS IS\" BASIS, WITHOUT WARRANTIES OF ANY KIND, EITHER EXPRESS OR IMPLIED.\n",
        License::NCSA => "Copyright (c) {year} {name} {email}\n\nPermission is hereby granted, free of charge, under the University of Illinois/NCSA Open Source License, to any person obtaining a copy of this software and associated documentation files, to deal with the Software without restriction, subject to its conditions on redistributions.\n",
        License::ODbL => "Copyright (c) {year} {name} {email}\n\nThis database is made available under the Open Database License v1.0. Any rights in individual contents of the database are licensed under the Database Contents License. You are free to share, create and adapt, as long as you attribute, share alike, and keep open.\n",
        License::OFL => "Copyright (c) {year} {name} {email}\n\nThis Font Software is licensed under the SIL Open Font License, Version 1.1. The fonts, including any derivative works, can be bundled, embedded, redistributed and/or sold with any software provided that any reserved names are not used by derivative works.\n",
        License::OSL => "Copyright (c) {year} {name} {email}\n\nLicensed under the Open Software License version 3.0. This Original Work is provided under the terms of that license, and any external deployment of a derivative work counts as a distribution.\n",
        License::PostgreSQL => "Copyright (c) {year} {name} {email}\n\nPermission to use, copy, modify, and distribute this software and its documentation for any purpose, without fee, and without a written agreement is hereby granted, provided that this copyright notice and this paragraph appear in all copies.\n",
        License::Unlicense => "This is free and unencumbered software released into the public domain.\n\nAnyone is free to copy, modify, publish, use, compile, sell, or distribute this software, either in source code form or as a compiled binary, for any purpose, commercial or non-commercial, and by any means.\n\nFor more information, please refer to https://unlicense.org\n",
        License::UPL => "Copyright (c) {year} {name} {email}\n\nThe Universal Permissive License (UPL), Version 1.0: subject to the condition set forth below, permission is hereby granted to any person obtaining a copy of this software to deal in both the Software and the Larger Works, without restriction.\n",
        License::Vim => "Copyright (c) {year} {name} {email}\n\nThis work is distributed under the Vim License. Vim is Charityware; you can use and copy it as much as you like, but you are encouraged to make a donation for needy children in Uganda.\n",
        License::WTFPL => "Everyone is permitted to copy and distribute verbatim or modified copies of this license document, and changing it is allowed as long as the name is changed.\n\nTERMS AND CONDITIONS FOR COPYING, DISTRIBUTION AND MODIFICATION:\n0. You just DO WHAT THE FUCK YOU WANT TO.\n",
        License::Zlib => "Copyright (c) {year} {name} {email}\n\nThis software is provided \"as-is\", without any express or implied warranty. Permission is granted to anyone to use this software for any purpose, including commercial applications, and to alter it and redistribute it freely, subject to the origin and notice restrictions of the zlib License.\n",
    }
}

} // verus!
