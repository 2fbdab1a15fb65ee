# upgrade_sentinel

Static detection of suspicious patterns in upgradeable smart contracts, over a
minimal model of the Solidity compiler's AST JSON.

- `src/model.rs`: the AST nodes the rules read.
- `src/finding.rs`: a finding and its view as characters.
- `src/text.rs`: trimming, lower-casing, substring search, joining.
- `src/spec.rs`: what each rule (UPG-001 to UPG-005) reports, as spec functions.
- `src/rules.rs`: the rules, each proved to return exactly what `spec.rs` states.
- `src/laws.rs`: properties that hold for every AST.
- `app/`: the command line, reading the JSON with serde and printing findings.
