# hyperswitch_connectors

Two payment connectors with their behaviour proved by Verus:

* **Paydunya** (West African mobile money through the SOFTPAY API): operator
  resolution from payment method type and billing country, the
  operator-specific authorize bodies, invoice preprocessing, and the reading
  of authorization, confirmation, refund and IPN answers.
* **Peach Payments APM** (alternative payment methods through the Payments
  API): brand details and request bodies, result-code classification,
  redirects, refunds, error responses, status URLs and AES-GCM webhook
  decryption.

Layout:

* `src/` – the verified library. `domain.rs` holds the payment vocabulary,
  `accessors.rs` the router-data accessors, `text.rs` string helpers,
  `paydunya*` and `peach*` the connectors, `laws.rs` the properties that span
  several operations, and `outside.rs` the trusted wrappers around `hex`,
  `ring`, `url` and `std`.
* `tests/` – tests of the library.
* `app/` – the unverified edge: serde wire formats, amount conversion to
  major units, webhook header and body extraction, and flow glue.
