# Space Batter

A small batting game. `src/` is the verified rule book of the game: how the
pitcher's frames advance, when a swing connects, how strikes and score are
kept, which screen follows which, and which systems run on each screen.
`app/` is the Bevy program around it: windows, sprites, timers, audio and
keyboard input, which hands the library plain values and applies what it
returns.
