# file_convert

A small file-conversion service. The library in `src/` holds its decisions,
verified with Verus:

- `format`: recognising target formats (audio, compression, document, image,
  video) from an extension, in any case;
- `convert`: refusing a conversion to the file's own format, the first check
  on an upload, the layout of the working folder and the conversion plan;
- `command`: the external tool (ffmpeg, pandoc, gzip, zip) and its arguments
  for each format;
- `upload`: the handling of one upload as a step function from state and
  event to next state and action, with the order of its file work proved;
- `random`: the random name of the working folder;
- `error`: the errors answered to clients.

`app/` is the HTTP server (axum): it reads settings, receives uploads and
performs each action the library's step function decides on (reading,
writing and removing files, running tools), then answers as it says.
