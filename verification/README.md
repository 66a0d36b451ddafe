# ssh_proxy_gtk

A GTK window that opens an SSH dynamic port forward (a SOCKS5 proxy, as
`ssh -D local_port user@server -p ssh_port -N` does), with a Chinese and an
English interface and a history of recently used servers.

- `src/` is the verified library: the texts of both languages (`i18n`), the
  port-number and placeholder text operations (`text`), the server history
  (`history`), the connection form and its checks (`form`), the ssh command
  line (`command`), the status messages (`status`), and the state of one run
  of the window: language, growing server history and button states (`session`).
- `app/` is the window itself: GTK widgets, the config file under
  `~/.ssh_proxy_gtk/config.json` (JSON, mode 600), the ssh child process and
  the worker thread that starts it.
- `tests/` runs the library on concrete values.
