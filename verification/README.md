# media_widget

A media remote for a phone: three buttons and a small display, connected over
Bluetooth LE.

- `src/` is the library, verified with Verus. It holds what the device decides
  and computes: the form of a bond in flash (`bond`), the advertising payload
  (`advertise`), the title and the layout of the screen (`title`, `screen`), what
  the phone says and can be told (`media`), the two tasks that run on a connection
  (`display`, `buttons`) and why they do not get in each other's way (`lock`), and
  what happens on a connection besides (`session`).
- `app/` is the firmware for an ESP32-S3. It drives radio, flash, display and
  buttons, and asks the library what to do. It expects the pictures of the icons
  in `images/`.
- `tests/` runs the library on concrete values.

What the library takes on trust of the Bluetooth host and of the standard
library stands in `keys`, `advertise` and `title`, in the doc comments of the
functions marked `external_body`.
