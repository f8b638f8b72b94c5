# Herdr Night Watch

Herdr Night Watch keeps a Windows PC awake while Herdr agents work through the
night, warns before the chosen power action (sleep or shutdown) and records
what happened.

`src/` is the verified library (Verus): the watcher's status report and
commands, the tray menu and its decisions, the sleep lock, the completion
notice, the session history and the completion log, the stored window
settings, the live window's recognition, placement and texts, the quota
reports and reset phrases, the media timeline, which LibreHardwareMonitor
endpoints are queried and how their HTTP responses are read, the calendar,
and the weather requests.
Every public function states what it returns in its contract (where the
result rests on a clock reading, what holds for every reading); the `lemma_*`
proof functions state laws that span several functions, such as round trips
of stored settings and of calendar dates.

`app/` is the console program around the library: it runs the watcher's
commands, reads and writes the files and registry values, asks Windows for
the sleep lock and shows the notice. The quota forecast, which computes with
fractional rates, lives there too.

`tests/` holds the tests of the library.
