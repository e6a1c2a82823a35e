# andean_condor

A library for chunked video encoding, written in Verus: the functions in
`src/` carry contracts that the verifier proves, apart from a few small
wrappers around calls into std, `which`, `av1-grain` and `rand`, whose
contracts are trusted and say so in their doc comments.

What it covers:

- encoder configurations and their parameters (`encoding`, `cli_parameter`,
  `command`), with the command line of each pass;
- reading parameters typed by a user (`parameter_parser`);
- cutting a video into scenes: at fixed length, at reported scene changes,
  extra splits of long scenes, zones, and detection round by round through
  zones (`scene_detection`, `scenes`, `scene_detect`);
- the order in which chunks are encoded: longest first, shortest first, in
  order, or at random (`chunk_order`);
- the job state and the command-line tool's configuration (`condor`,
  `configuration`, `cli`, `input`, `processing`);
- VapourSynth scripts built from parts, among them the rescaling chain
  (`text_map`, `vapoursynth`, `vs_plugins`, `resize`, `rescale`);
- progress: protocol events, the parallel encoder's console state
  (`flowencode`, `parallel_encoder`);
- checks of encoder arguments and film-grain tables (`settings`,
  `photon_noise`), FFmpeg pipes and frame counts (`ffmpeg`);
- the checks an encoding run makes on its settings before it starts
  (`validation`).

`app/` holds the `condor` command-line tool: argument handling, the
configuration file, and what needs the file system, the clock or floating
point. `tests/` holds the tests of the library.
