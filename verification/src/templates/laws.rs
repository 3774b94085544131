use vstd::prelude::*;
use crate::templates::{storage, storage_v2};

verus! {

/// `s` holds `part` somewhere.
pub open spec fn holds_text(s: Seq<char>, part: Seq<char>) -> bool {
    exists|a: Seq<char>, b: Seq<char>| s == a + part + b
}

/// The Diamond Storage slot expression for a slot name: `keccak256("<name>")`.
pub open spec fn slot_expr(name: Seq<char>) -> Seq<char> {
    "keccak256(\""@ + name + "\")"@
}

/// Each version's storage library is declared under its own name and keeps its state at a
/// slot of its own: the first at `keccak256("<name>.storage")`, the second at
/// `keccak256("<name>.storage.v2")`, so an upgrade never shares the first version's slot.
pub proof fn law_storage_slots(pascal: Seq<char>, camel: Seq<char>, lower: Seq<char>)
    ensures
        holds_text(storage::spec_render(pascal, camel, lower), "library Lib"@ + pascal + "Storage {"@),
        holds_text(storage::spec_render(pascal, camel, lower), slot_expr(lower + ".storage"@)),
        holds_text(storage_v2::spec_render(pascal, camel, lower), "library Lib"@ + pascal + "V2Storage {"@),
        holds_text(storage_v2::spec_render(pascal, camel, lower), slot_expr(lower + ".storage.v2"@)),
        slot_expr(lower + ".storage"@) != slot_expr(lower + ".storage.v2"@),
{
    let h1 = "// SPDX-License-Identifier: MIT\npragma solidity ^0.8.29;\n\nimport {ModularStorage} from \"./Structs.sol\";\n\n"@;
    let l0 = "// SPDX-License-Identifier: MIT\npragma solidity ^0.8.29;\n\nimport {ModularStorage} from \"./Structs.sol\";\n\nlibrary Lib"@;
    let l1 = "Storage {\n    bytes32 internal constant "@;
    let l2 = "Point = keccak256(\""@;
    let l3 = ".storage\");\n\n    function s() internal pure returns(ModularStorage storage $) {\n        bytes32 slot = "@;
    let l4 = "Point;\n        assembly {\n            $.slot := slot\n        }\n    }\n}\n"@;
    reveal_strlit("// SPDX-License-Identifier: MIT\npragma solidity ^0.8.29;\n\nimport {ModularStorage} from \"./Structs.sol\";\n\n");
    reveal_strlit("// SPDX-License-Identifier: MIT\npragma solidity ^0.8.29;\n\nimport {ModularStorage} from \"./Structs.sol\";\n\nlibrary Lib");
    reveal_strlit("Storage {\n    bytes32 internal constant ");
    reveal_strlit("Point = keccak256(\"");
    reveal_strlit(".storage\");\n\n    function s() internal pure returns(ModularStorage storage $) {\n        bytes32 slot = ");
    reveal_strlit("library Lib");
    reveal_strlit("Storage {");
    reveal_strlit("\n    bytes32 internal constant ");
    reveal_strlit("Point = ");
    reveal_strlit("keccak256(\"");
    reveal_strlit(".storage");
    reveal_strlit("\")");
    reveal_strlit(";\n\n    function s() internal pure returns(ModularStorage storage $) {\n        bytes32 slot = ");
    assert(l0 =~= h1 + "library Lib"@);
    assert(l1 =~= "Storage {"@ + "\n    bytes32 internal constant "@);
    assert(l2 =~= "Point = "@ + "keccak256(\""@);
    assert(l3 =~= ".storage"@ + "\")"@ + ";\n\n    function s() internal pure returns(ModularStorage storage $) {\n        bytes32 slot = "@);
    let s1 = storage::spec_render(pascal, camel, lower);
    assert(s1 == l0 + pascal + l1 + camel + l2 + lower + l3 + camel + l4);
    let b1 = "\n    bytes32 internal constant "@ + camel + l2 + lower + l3 + camel + l4;
    assert(s1 =~= h1 + ("library Lib"@ + pascal + "Storage {"@) + b1);
    let a2 = l0 + pascal + l1 + camel + "Point = "@;
    let b2 = ";\n\n    function s() internal pure returns(ModularStorage storage $) {\n        bytes32 slot = "@ + camel + l4;
    assert(s1 =~= a2 + slot_expr(lower + ".storage"@) + b2);

    let g0 = "// SPDX-License-Identifier: MIT\npragma solidity ^0.8.29;\n\n/// @notice V2 storage struct — add new fields here, never touch V1 Structs.sol.\nstruct ModularStorageV2 {\n    uint256 newParam;\n    // Add more V2 fields below\n}\n\nlibrary Lib"@;
    let gh = "// SPDX-License-Identifier: MIT\npragma solidity ^0.8.29;\n\n/// @notice V2 storage struct — add new fields here, never touch V1 Structs.sol.\nstruct ModularStorageV2 {\n    uint256 newParam;\n    // Add more V2 fields below\n}\n\n"@;
    let g1 = "V2Storage {\n    bytes32 internal constant "@;
    let g2 = "V2Point = keccak256(\""@;
    let g3 = ".storage.v2\");\n\n    function s() internal pure returns (ModularStorageV2 storage $) {\n        bytes32 slot = "@;
    let g4 = "V2Point;\n        assembly {\n            $.slot := slot\n        }\n    }\n}\n"@;
    reveal_strlit("// SPDX-License-Identifier: MIT\npragma solidity ^0.8.29;\n\n/// @notice V2 storage struct — add new fields here, never touch V1 Structs.sol.\nstruct ModularStorageV2 {\n    uint256 newParam;\n    // Add more V2 fields below\n}\n\nlibrary Lib");
    reveal_strlit("// SPDX-License-Identifier: MIT\npragma solidity ^0.8.29;\n\n/// @notice V2 storage struct — add new fields here, never touch V1 Structs.sol.\nstruct ModularStorageV2 {\n    uint256 newParam;\n    // Add more V2 fields below\n}\n\n");
    reveal_strlit("V2Storage {\n    bytes32 internal constant ");
    reveal_strlit("V2Point = keccak256(\"");
    reveal_strlit(".storage.v2\");\n\n    function s() internal pure returns (ModularStorageV2 storage $) {\n        bytes32 slot = ");
    reveal_strlit("V2Storage {");
    reveal_strlit("V2Point = ");
    reveal_strlit(".storage.v2");
    reveal_strlit(";\n\n    function s() internal pure returns (ModularStorageV2 storage $) {\n        bytes32 slot = ");
    assert(g0 =~= gh + "library Lib"@);
    assert(g1 =~= "V2Storage {"@ + "\n    bytes32 internal constant "@);
    assert(g2 =~= "V2Point = "@ + "keccak256(\""@);
    assert(g3 =~= ".storage.v2"@ + "\")"@ + ";\n\n    function s() internal pure returns (ModularStorageV2 storage $) {\n        bytes32 slot = "@);
    let s2 = storage_v2::spec_render(pascal, camel, lower);
    assert(s2 == g0 + pascal + g1 + camel + g2 + lower + g3 + camel + g4);
    let c1 = "\n    bytes32 internal constant "@ + camel + g2 + lower + g3 + camel + g4;
    assert(s2 =~= gh + ("library Lib"@ + pascal + "V2Storage {"@) + c1);
    let a3 = g0 + pascal + g1 + camel + "V2Point = "@;
    let c3 = ";\n\n    function s() internal pure returns (ModularStorageV2 storage $) {\n        bytes32 slot = "@ + camel + g4;
    assert(s2 =~= a3 + slot_expr(lower + ".storage.v2"@) + c3);
    assert(slot_expr(lower + ".storage"@).len() != slot_expr(lower + ".storage.v2"@).len());
}

} // verus!
