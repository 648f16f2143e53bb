//! Decisions of a Telegram bot that fetches audio and video with yt-dlp:
//! which downloader arguments each media kind uses, where downloads land,
//! which downloaded files are delivered and under which names, and which
//! steps answer each chat command.
pub mod boundary;
pub mod bot;
pub mod media;
pub mod store;
pub mod text;
