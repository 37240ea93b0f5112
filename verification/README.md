# exmo_exchange

The verified core of a currency exchange gateway that quotes and executes
conversions between ETH, STQ, BTC, USD and RUB on the exmo exchange.

`src/` is the library, checked by Verus:

- `currency`, `amount`: currencies, their names and stored form, and the
  integer halves of converting amounts to quantities of whole units.
- `order_type`, `routes`: exmo's order types and the orders (markets and
  order types) that carry out a conversion.
- `nonce`, `decimal`: request nonces and integers as decimal text.
- `retry`: the retry policies for failed requests.
- `exmo`: the exmo client's errors, request bodies, request signing and the
  reading of an order's reply.
- `services`: the exchange service's errors and the decision steps of selling
  at a quoted rate, of placing a sale's orders leg by leg, and of refreshing
  a quote.
- `utils`: the text of a logged error, from its causes and backtrace.
- `validation`, `repos`, `models`, `config`: refused fields, database errors,
  requests and settings.

`app/` holds what stays outside the proofs: floating-point prices and rates,
JSON and settings files, and the drivers that run the service's steps against
the database, the authentication service and exmo.
