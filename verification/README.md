# vt_core

Virtual-terminal support for a Linux user space, written in Verus.

- `src/` is the verified library: PSF1/PSF2 console font parsing (`font`),
  the `/etc/vconsole.conf` reader (`console`, on top of the text helpers in
  `text` and the number parsing and printing in `num`), the systemd
  notification and socket-activation logic (`notify`), the argument handling
  of the VT tools (`tools`, `vt`), the console setup steps (`setup`) and the
  error type (`error`).
- `app/` holds what talks to the system: file reads, environment variables,
  the notification socket, console ioctls, `fork`/`exec`, and the entry points
  of `chvt`, `deallocvt`, `fgconsole`, `loadkeys`, `openvt`, `setfont`,
  `vconsole-setup` and the VT manager service.
- `tests/` runs the library on concrete inputs.
