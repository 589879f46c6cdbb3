# gutz_nowplaying

The logic of the Gutz Now Playing desktop wrapper, verified with Verus.

- `src/config.rs`: the settings, and the URL of a path on the configured server
  (`Config::url_for`, `Config::validate`).
- `src/web_url.rs`: absolute URLs, parsed and joined by the `url` crate.
- `src/text.rs`: trimming, stripping and comparing strings.
- `src/views.rs`: the views, the windows that show them, their titles and reloads.
- `src/tray.rs`: the tray menu and what its entries do.
- `src/state.rs`: settings in use, server health, and the health monitor's reactions.
- `src/update.rs`: what the update check does after each outcome.
- `app/`: the Tauri application around the library (windows, tray, threads,
  HTTP probe, settings file).
