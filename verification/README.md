# hello_rocket

A small crypto-currency wallet web application: users register, log in,
change their account, record buy/sell transactions and see a summary.

- `src/` is the library, verified with Verus: form validation, the bcrypt
  password checks, session tokens, the meaning of database rows, decimal
  parsing of transaction ids, the wallet summary's rows and price table, and
  every request handler as a flow of decisions (`login`, `register`,
  `account`, `page_flow`) over the outside work it asks for (`protocol`).
- `app/` is the Rocket web server around it: routes, cookies, the SQLite
  database through Diesel, templates, and the floating-point wallet amounts.
- `tests/` runs the library on concrete values.
