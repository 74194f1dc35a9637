//! Proof-of-concept exploit templates for high-impact findings.

use vstd::prelude::*;

use crate::errors::AnalysisError;
use crate::finding::{spec_category_name, spec_severity_name, Finding};

verus! {

/// The proof-of-concept template rendered for one finding: the fixed
/// exploit scaffold with the finding's title, severity, category and
/// description interpolated into its header comment.
pub open spec fn spec_vulnerability_poc(f: Finding) -> Seq<char> {
    "\n// SPDX-License-Identifier: MIT\npragma solidity ^0.8.0;\n\n/**\n * Proof of Concept Exploit for: "@
        + f.title@ + "\n * Severity: "@ + spec_severity_name(f.severity) + "\n * Category: "@
        + spec_category_name(f.category) + "\n * \n * Description: "@ + f.description@
        + "\n * \n * This PoC demonstrates how the vulnerability can be exploited.\n * DO NOT USE IN PRODUCTION - FOR EDUCATIONAL PURPOSES ONLY\n */\n\nimport \"./target_contract.sol\"; // Import the vulnerable contract\n\ncontract Exploit {\n    TargetContract public target;\n    \n    constructor(address _target) {\n        target = TargetContract(_target);\n    }\n    \n    /**\n     * Execute the exploit\n     */\n    function exploit() external payable {\n        // Customize the call sequence for the vulnerability under test.\n        \n        // Example for reentrancy:\n        // target.vulnerableFunction{value: msg.value}();\n        \n        // Example for access control:\n        // target.privilegedFunction();\n        \n        // Example for integer overflow:\n        // target.arithmeticFunction(type(uint256).max);\n    }\n    \n    /**\n     * Receive function for reentrancy attacks\n     */\n    receive() external payable {\n        if (address(target).balance > 0) {\n            // target.vulnerableFunction();\n        }\n    }\n}\n\n/**\n * Test Contract for the Exploit\n */\ncontract ExploitTest {\n    TargetContract public target;\n    Exploit public exploit;\n    \n    function setUp() public {\n        target = new TargetContract();\n        exploit = new Exploit(address(target));\n    }\n    \n    function testExploit() public {\n        // Setup initial state\n        // target.setup{value: 1 ether}();\n        \n        uint256 balanceBefore = address(this).balance;\n        \n        // Execute exploit\n        exploit.exploit{value: 0.1 ether}();\n        \n        uint256 balanceAfter = address(this).balance;\n        \n        // Verify exploit success\n        assert(balanceAfter > balanceBefore);\n    }\n}\n"@
}

/// Render the proof-of-concept exploit template for one finding.
pub fn generate_vulnerability_poc(vuln: &Finding) -> (r: Result<String, AnalysisError>)
    ensures
        (r matches Ok(s) && s@ == spec_vulnerability_poc(*vuln)),
{
    let mut out = String::from_str(
        "\n// SPDX-License-Identifier: MIT\npragma solidity ^0.8.0;\n\n/**\n * Proof of Concept Exploit for: ",
    );
    out.append(vuln.title.as_str());
    out.append("\n * Severity: ");
    out.append(vuln.severity.as_str());
    out.append("\n * Category: ");
    out.append(vuln.category.as_str());
    out.append("\n * \n * Description: ");
    out.append(vuln.description.as_str());
    out.append(
        "\n * \n * This PoC demonstrates how the vulnerability can be exploited.\n * DO NOT USE IN PRODUCTION - FOR EDUCATIONAL PURPOSES ONLY\n */\n\nimport \"./target_contract.sol\"; // Import the vulnerable contract\n\ncontract Exploit {\n    TargetContract public target;\n    \n    constructor(address _target) {\n        target = TargetContract(_target);\n    }\n    \n    /**\n     * Execute the exploit\n     */\n    function exploit() external payable {\n        // Customize the call sequence for the vulnerability under test.\n        \n        // Example for reentrancy:\n        // target.vulnerableFunction{value: msg.value}();\n        \n        // Example for access control:\n        // target.privilegedFunction();\n        \n        // Example for integer overflow:\n        // target.arithmeticFunction(type(uint256).max);\n    }\n    \n    /**\n     * Receive function for reentrancy attacks\n     */\n    receive() external payable {\n        if (address(target).balance > 0) {\n            // target.vulnerableFunction();\n        }\n    }\n}\n\n/**\n * Test Contract for the Exploit\n */\ncontract ExploitTest {\n    TargetContract public target;\n    Exploit public exploit;\n    \n    function setUp() public {\n        target = new TargetContract();\n        exploit = new Exploit(address(target));\n    }\n    \n    function testExploit() public {\n        // Setup initial state\n        // target.setup{value: 1 ether}();\n        \n        uint256 balanceBefore = address(this).balance;\n        \n        // Execute exploit\n        exploit.exploit{value: 0.1 ether}();\n        \n        uint256 balanceAfter = address(this).balance;\n        \n        // Verify exploit success\n        assert(balanceAfter > balanceBefore);\n    }\n}\n",
    );
    Ok(out)
}

} // verus!
