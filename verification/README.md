# mpd_bot

A Telegram bot that downloads files on request, with its decisions verified by Verus.

- `src/` is the verified library: the message types (`structs`), reading entity
  spans out of a message (`utils`), decimal formatting (`text`), the Bot API
  addresses (`telegram`), the chat store's rules (`store`), the model of how an
  update is handled (`model`), the machine that handles it (`handler`) and the
  properties proved of that machine (`laws`).
- `app/` is the program around it: polling the Bot API, the SQLite store, sending
  messages and downloading files. It performs the actions that `handler` asks for
  and hands back their answers.
