# taigikeyboard

The decisions of the TaigiKeyboard input method on Linux, as a Verus library
whose functions carry their contracts and are proved against them:

- `selection`: the highlighted candidate and its page, the arrow keys' turn
  for a column, slot keys and panel clicks.
- `session`: what one key, a panel click or navigation, and the end of a
  composition do to the engine's state and which signals go to the daemon.
- `key_translation`: an IBus key event as the engine's key snapshot.
- `wire`: the GVariant shapes of the IBus serialisables the engine sends,
  and the D-Bus signature each is sent under.
- `bus`: finding the daemon's private bus.
- `factory`: the engine factory's answer to `CreateEngine`.
- `update_schedule`, `update_trigger`: the daily update check.
- `cli`, `settings_pane`, `launcher`: the settings window's command line,
  from both sides.
- `recorder`: the shortcut recorder's state.
- `fonts`: fontconfig's output and the fate of an imported font file.
- `locale`, `lang_bar`, `text`: the UI language tag, the tray menu's ids,
  and the string operations the rest needs.

`app/` is the engine process around it: the bus connection, the factory
object, and the environment and files it reads to find the bus.
`tests/` exercises the library on concrete values.
