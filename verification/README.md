# telepirate

A Telegram bot that downloads music and videos with `yt-dlp` and sends them
to the chat. The decisions the bot takes are a Verus-verified library; the
program around them talks to Telegram, the database and the file system.

- `src/media.rs`: media kinds, the `yt-dlp` arguments of each, the download
  folder, the file pattern, what becomes of each downloaded file (size limit,
  opus files renamed to `.ogg`), and the laws about them.
- `src/bot.rs`: the chat commands and the steps that answer each of them,
  including the steps after a download.
- `src/store.rs`: the table in which a chat's messages are remembered.
- `src/text.rs`: decimal text of integers.
- `src/boundary.rs`: the calls into std, humantime, regex and uuid, with the
  contracts that are believed rather than proved.
- `app/`: the program: Telegram dispatch, webhooks through ngrok, the
  database, running `yt-dlp`, logging.
