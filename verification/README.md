# soundboard

Keyboard sound board: every key press and release plays a short recorded
click, pitched at random among a few baked variants, with Alt+M / Alt+J /
Alt+K as mute / volume-down / volume-up hotkeys.

- `src/` is the verified library: the keys (`keys`), the hotkey listener
  (`hotkey`), the press/release state machine that decides what to play
  (`soundboard`), the integer bookkeeping of the reverb's circular delay
  buffer (`delay`), the random choice of a pitch variant (`variants`) and the
  soft-clip wrapper (`softclip`). Each module states its contracts and proves
  its laws.
- `app/` is the program around it: keyboard hook, audio decoding and
  playback, and the floating-point signal processing (pitch shift, reverb
  mixing, gain, `tanh` clipping).
