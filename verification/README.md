# rome_js_analyze (verified core)

The decisions behind Rome's JavaScript linter suppressions and one formatting
rule, verified with Verus over plain models of the syntax tree:

- `suppression`: which lint suppressions the categories of a suppression comment
  ask for (`lint`, `lint(value)`, `lint/<path>`).
- `tokens`: the search, back from a token, for the token that starts its line.
- `suppression_edit`: where a new suppression comment goes and what it reads.
- `rule_error`: the errors of rules and their messages.
- `export_from_clause`: the formatting of `export * [as x] from "m" [assert {..}];`.

`app/` holds the glue to Rome's own syntax trees and the serde form of
`RuleError`.
