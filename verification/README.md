# privy_wa

A browser front end that signs users in through an identity provider (e-mail
one-time codes) or a wallet extension (MetaMask, Phantom), and offers wallet
actions on a dashboard.

- `src/` is the verified library: the session cache kept in local storage
  (`session`), the authentication state machine (`auth`), the user model and
  its badge text (`user`), address shortening (`address`), the payloads and
  replies of Ethereum wallet requests (`eth`), the account list of a program
  invocation (`accounts`), error texts of wallet and provider calls
  (`wallet`), and page decisions (`ui`).
- `app/` is the Leptos application around it: JavaScript bindings, signals,
  components and pages. It performs the asynchronous calls and reports their
  outcomes to the library's transitions.
- `tests/` exercises the library on concrete values.
