//! The command that runs a backend.
//!
//! Every backend reads the text from the scratch file and writes its audio
//! to its own fixed output file, so the text never appears on a command
//! line.

use crate::assets::SCRATCH_FILE;
use crate::cascade::Backend;
use vstd::prelude::*;
use vstd::string::*;

verus! {

/// The interpreter that runs the script of the hosted backend.
pub const HOSTED_PROGRAM: &'static str = "python3";

/// The program of the phonetic synthesizer.
pub const PHONETIC_PROGRAM: &'static str = "espeak-ng";

/// The program of the platform voice.
pub const PLATFORM_VOICE_PROGRAM: &'static str = "say";

/// The voice of the phonetic synthesizer.
pub const PHONETIC_VOICE: &'static str = "en-us";

/// The speed of the phonetic synthesizer, in words per minute.
pub const PHONETIC_SPEED: &'static str = "150";

/// The voice of the platform voice.
pub const PLATFORM_VOICE_NAME: &'static str = "Alex";

/// The script of the hosted backend up to the name of the scratch file.
pub const HOSTED_SCRIPT_HEAD: &'static str =
    "\nimport sys\ntry:\n    from gtts import gTTS\n    with open(\"";

/// The script of the hosted backend between the name of the scratch file
/// and the name of the output file.
pub const HOSTED_SCRIPT_BODY: &'static str =
    "\", \"r\") as f:\n        text = f.read()\n    tts = gTTS(text=text, lang='en', slow=False)\n    tts.save(\"";

/// The script of the hosted backend after the name of the output file.
pub const HOSTED_SCRIPT_TAIL: &'static str =
    "\")\n    print(\"gTTS succeeded\")\nexcept Exception as e:\n    print(\"gTTS failed: \" + str(e))\n    sys.exit(1)\n";

/// A program and the arguments that it is started with.
#[derive(Clone, Debug, PartialEq, Eq)]
pub struct Invocation {
    /// The name of the program.
    pub program: String,
    /// The arguments, in order.
    pub arguments: Vec<String>,
}

/// The characters of each of `texts`.
pub open spec fn texts_of(texts: Seq<String>) -> Seq<Seq<char>> {
    texts.map_values(|text: String| text@)
}

/// The script that asks the hosted service to speak the scratch file into
/// the file `output`. It ends with a failure status when the service cannot
/// be reached.
pub open spec fn hosted_script(output: Seq<char>) -> Seq<char> {
    HOSTED_SCRIPT_HEAD@ + SCRATCH_FILE@ + HOSTED_SCRIPT_BODY@ + output + HOSTED_SCRIPT_TAIL@
}

impl Backend {
    /// The program that runs this backend.
    pub open spec fn program_name(self) -> Seq<char> {
        match self {
            Backend::Hosted => HOSTED_PROGRAM@,
            Backend::Phonetic => PHONETIC_PROGRAM@,
            Backend::PlatformVoice => PLATFORM_VOICE_PROGRAM@,
        }
    }

    /// The arguments that this backend is started with. Each names the
    /// scratch file as its input and the backend's fixed file as its output.
    pub open spec fn argument_list(self) -> Seq<Seq<char>> {
        match self {
            Backend::Hosted => seq!["-c"@, hosted_script(self.output_file_path())],
            Backend::Phonetic => seq![
                "-v"@,
                PHONETIC_VOICE@,
                "-s"@,
                PHONETIC_SPEED@,
                "-w"@,
                self.output_file_path(),
                "-f"@,
                SCRATCH_FILE@,
            ],
            Backend::PlatformVoice => seq![
                "-v"@,
                PLATFORM_VOICE_NAME@,
                "-o"@,
                self.output_file_path(),
                "-f"@,
                SCRATCH_FILE@,
            ],
        }
    }

    /// The command that runs this backend on the scratch file.
    pub fn invocation(self) -> (command: Invocation)
        ensures
            command.program@ == self.program_name(),
            texts_of(command.arguments@) == self.argument_list(),
    {
        let output = self.output_file();
        let mut arguments: Vec<String> = Vec::new();
        let program = match self {
            Backend::Hosted => {
                let mut script = String::from_str(HOSTED_SCRIPT_HEAD);
                script.append(SCRATCH_FILE);
                script.append(HOSTED_SCRIPT_BODY);
                script.append(output.as_str());
                script.append(HOSTED_SCRIPT_TAIL);
                arguments.push(String::from_str("-c"));
                arguments.push(script);
                HOSTED_PROGRAM
            },
            Backend::Phonetic => {
                arguments.push(String::from_str("-v"));
                arguments.push(String::from_str(PHONETIC_VOICE));
                arguments.push(String::from_str("-s"));
                arguments.push(String::from_str(PHONETIC_SPEED));
                arguments.push(String::from_str("-w"));
                arguments.push(output);
                arguments.push(String::from_str("-f"));
                arguments.push(String::from_str(SCRATCH_FILE));
                PHONETIC_PROGRAM
            },
            Backend::PlatformVoice => {
                arguments.push(String::from_str("-v"));
                arguments.push(String::from_str(PLATFORM_VOICE_NAME));
                arguments.push(String::from_str("-o"));
                arguments.push(output);
                arguments.push(String::from_str("-f"));
                arguments.push(String::from_str(SCRATCH_FILE));
                PLATFORM_VOICE_PROGRAM
            },
        };
        assert(texts_of(arguments@) =~= self.argument_list());
        Invocation { program: String::from_str(program), arguments }
    }
}

} // verus!
