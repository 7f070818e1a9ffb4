# awgram

The decision logic of a Telegram bot that sells and manages AmneziaWG VPN
keys, and of the agent that runs on each VPN node, written in Verus: every
function in `src/` carries a contract that Verus proves.

## Layout

- `src/` — the verified library.
  - `action`, `callback_laws`: the callback data of inline buttons, how it
    decodes into an action, and the proof that the data of each button
    family reads back as the action it was made for.
  - `auth`, `access`, `scope`, `store`: roles (owner, group administrator,
    staff), who may run which action, which clients a role sees, and the
    in-memory model of the facts these decisions read.
  - `add_flow`, `bulk_flow`, `issue_flow`: adding one client, creating a
    batch, and issuing a purchased or trial key, as step functions from a
    phase and an outcome to the next phase and command; the caller performs
    the commands.
  - `node`, `node_run`: the node agent's argument checks, configuration
    file, and the decisions of one agent run.
  - `keyboard`, `admin_menus`, `customer_menus`, `bot_menus`, `list_menus`,
    `entry_menus`, `client_list`, `reply_keyboards`, `screens`, `links`: every
    keyboard the bot shows, each stated exactly.
  - `calendar`, `numbers`, `text`, `inputs`, `owner_inputs`, `handlers`,
    `model`, `state`: dates, decimal numbers, text primitives, what the bot
    reads from typed messages, and smaller helpers of the dialogs.
  - `conversation`: what a pressed button and a typed message lead to,
    before and around the work on the store and the VPN service.
  - `managed`: the list of managed clients, merged from the database and
    the local service and ordered by name.
  - `admission`, `routes`, `broadcast`, `overview`, `payments`, `release`:
    which callbacks reach a user, which screen a typed text opens, who a
    broadcast reaches, the figures of dashboards and statistics, Stars
    invoices, prices and payment links, and the release notice.
- `tests/` — tests on concrete values.
- `app/` — the drivers of the step functions, rendering keyboards for the
  Telegram API, Stars invoices and
  checkouts, the request for the latest release, and the node agent's
  files, streams and driver process.

## Checking

Verus verifies `src/`; the tests run against the compiled library.
