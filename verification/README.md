# thiessen

The configuration layer of Bayesian additive Voronoi tessellations
(AddiVortes; Stone and Gosling 2025), verified with Verus.

- `src/float.rs`: reals held by their IEEE 754 binary64 pattern, with the
  comparisons, equality and tests of `f64` stated and proved over integers.
- `src/outcome.rs`: the outcome models (Gaussian, probit), their sigma^2
  settings, and the items this build gates behind the `experimental`
  feature.
- `src/terms.rs`: the term groups (mean and variance ensembles), their
  geometry, structure and cell basis, and the sweep schedule.
- `src/config.rs`: `Config`, its setters, and `validate`, whose result is
  stated exactly as the first rule a configuration breaks.
- `src/boundary.rs`: the checks on a pinned prior and on a replacement
  response.
- `src/schedule.rs`: the sweep schedule (burn-in, then thinned rounds each
  ending in a keep) as a decision from the chain's progress to its next
  action, the noise update each sweep makes, what a kept draw records, and the rule that a chain closes only
  with a draw kept.
- `src/error.rs`: rejections, by field and rule.
- `src/laws.rs`: properties across operations, proved.
- `app/`: the serialised form (serde) of the configuration, converting one
  for one to the library's types, and the messages of its errors.
