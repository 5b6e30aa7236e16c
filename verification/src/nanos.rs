//! Launch preparation for unikernel guests: the name of the image the
//! external image builder produces, the argument list it is invoked with,
//! and the launch configuration of the built image.  Running the builder
//! and placing files is outside work; what it is told and where its output
//! is expected are fixed here.

use vstd::prelude::*;
use vstd::string::StringExecFns;
use crate::addr::Ipv4Address;
use crate::addr::dec_str;
use crate::addr::u64_to_dec_string;
use crate::network::TapUser;
use crate::qemu::LaunchConfiguration;
use crate::qemu::QemuFirmwareConfig;
use crate::qemu::join_path;
use crate::shell::ShellError;
use vstd::string::StringSliceAdditionalSpecFns;

verus! {

/// The boot-time settings of a unikernel guest.
#[derive(Debug)]
pub struct RunConfig {
    pub gateway: Ipv4Address,
}

/// What the image builder is configured with: kernel libraries, debug
/// flags, the guest's run configuration, and whether to build inside
/// docker.
#[derive(Debug)]
pub struct Args {
    pub klibs: Vec<String>,
    pub kernel: Option<String>,
    pub klib_dir: Option<String>,
    pub debugflags: Vec<String>,
    pub run_config: RunConfig,
    pub use_docker: bool,
}

/// One unikernel worker: which query and node it serves, the binary it
/// boots, its argument line and an optional fixed address.
#[derive(Debug)]
pub struct UnikernelWorkerConfig {
    pub query_id: u64,
    pub node_id: u64,
    pub elf_binary: String,
    pub args: Option<String>,
    pub ip: Option<Ipv4Address>,
}

/// Why preparing a unikernel launch failed.
#[derive(Debug)]
pub enum NanosError {
    /// Running the image builder failed.
    Shell(ShellError),
    /// A filesystem step failed, with its text and what was being done.
    FileSystem(String, String),
    /// The image builder binary was not found.
    OpsNotFound(String),
    /// The home directory, where the builder leaves its images, was not
    /// found.
    HomeDir(String),
    /// The caller's input is unusable.
    UsageError(String),
}

impl UnikernelWorkerConfig {
    /// The image name the builder is told to produce, derived from the
    /// query and node this worker serves.
    pub fn image_name(&self) -> (r: String)
        ensures
            r@ == "unikernel_"@ + dec_str(self.query_id as nat) + "_"@ + dec_str(
                self.node_id as nat,
            ),
    {
        let mut s = "unikernel_".to_owned();
        s.append(u64_to_dec_string(self.query_id).as_str());
        s.append("_");
        s.append(u64_to_dec_string(self.node_id).as_str());
        s
    }
}

/// The usage error for a binary path that is not a file.
pub fn usage_not_a_file(path: &str) -> (r: NanosError)
    ensures
        r matches NanosError::UsageError(s) && s@ == path@ + " is not a file"@,
{
    let mut s = path.to_owned();
    s.append(" is not a file");
    NanosError::UsageError(s)
}

/// The index of the first space byte of `s`, or `-1` if there is none.
pub open spec fn first_sp(s: Seq<u8>) -> int
    decreases s.len(),
{
    if s.len() == 0 {
        -1
    } else if s[0] == 32 {
        0
    } else if first_sp(s.skip(1)) < 0 {
        -1
    } else {
        first_sp(s.skip(1)) + 1
    }
}

/// `s` split at its space bytes, which are dropped; every split yields at
/// least one piece, and consecutive spaces yield empty pieces.
pub open spec fn split_sp(s: Seq<u8>) -> Seq<Seq<u8>>
    decreases s.len(),
{
    let i = first_sp(s);
    if 0 <= i < s.len() {
        seq![s.take(i)] + split_sp(s.skip(i + 1))
    } else {
        seq![s]
    }
}

/// `first_sp` names a space position and nothing before one.
proof fn lemma_first_sp(s: Seq<u8>)
    ensures
        first_sp(s) == -1 ==> forall|j: int| 0 <= j < s.len() ==> s[j] != 32,
        first_sp(s) >= 0 ==> {
            &&& 0 <= first_sp(s) < s.len()
            &&& s[first_sp(s)] == 32
            &&& forall|j: int| 0 <= j < first_sp(s) ==> s[j] != 32
        },
    decreases s.len(),
{
    if s.len() > 0 && s[0] != 32 {
        lemma_first_sp(s.skip(1));
        if first_sp(s) == -1 {
            assert forall|j: int| 0 <= j < s.len() implies s[j] != 32 by {
                if j > 0 {
                    assert(s.skip(1)[j - 1] != 32);
                }
            }
        } else {
            assert forall|j: int| 0 <= j < first_sp(s) implies s[j] != 32 by {
                if j > 0 {
                    assert(s.skip(1)[j - 1] != 32);
                }
            }
        }
    }
}

/// A space at `k` with none before it is the first space.
proof fn lemma_first_sp_at(s: Seq<u8>, k: int)
    requires
        0 <= k < s.len(),
        s[k] == 32,
        forall|j: int| 0 <= j < k ==> s[j] != 32,
    ensures
        first_sp(s) == k,
    decreases k,
{
    if k > 0 {
        assert forall|j: int| 0 <= j < k - 1 implies s.skip(1)[j] != 32 by {
            assert(s[j + 1] != 32);
        }
        lemma_first_sp_at(s.skip(1), k - 1);
    }
}

/// Splits an argument line at its spaces, spaces dropped and empty words
/// kept.  The words cover the line: text between, before and after spaces.
pub fn split_args(args: &str) -> (r: Vec<String>)
    ensures
        r@.len() == split_sp(args.spec_bytes()).len(),
        forall|k: int|
            0 <= k < r@.len() ==> r@[k]@ == vstd::utf8::decode_utf8(
                #[trigger] split_sp(args.spec_bytes())[k],
            ),
{
    let bytes = args.as_bytes();
    proof {
        vstd::utf8::encode_utf8_valid_utf8(args@);
    }
    let ghost p = bytes@;
    let ghost pieces = split_sp(p);
    let n = bytes.len();
    let mut out: Vec<String> = Vec::new();
    let mut seg_start: usize = 0;
    let mut i: usize = 0;
    proof {
        assert(p.skip(0) =~= p);
        assert(pieces.skip(0) =~= pieces);
    }
    while i < n
        invariant
            p == bytes@,
            bytes@ == args.spec_bytes(),
            n == p.len(),
            vstd::utf8::valid_utf8(p.skip(seg_start as int)),
            pieces == split_sp(p),
            0 <= seg_start <= i <= n,
            forall|j: int| seg_start <= j < i ==> p[j] != 32,
            split_sp(p.skip(seg_start as int)) =~= pieces.skip(out@.len() as int),
            out@.len() <= pieces.len(),
            forall|k: int|
                0 <= k < out@.len() ==> out@[k]@ == vstd::utf8::decode_utf8(
                    #[trigger] pieces[k],
                ),
        decreases n - i,
    {
        if *vstd::slice::slice_index_get(bytes, i) == 32 {
            let ghost nseg = out@.len() as int;
            let ghost rem = p.skip(seg_start as int);
            let ghost d = i - seg_start as int;
            let ghost seg = p.subrange(seg_start as int, i as int);
            proof {
                assert(rem[d] == 32);
                assert forall|j: int| 0 <= j < d implies rem[j] != 32 by {
                    assert(p[seg_start as int + j] != 32);
                }
                lemma_first_sp_at(rem, d);
                assert(split_sp(rem) == seq![rem.take(d)] + split_sp(rem.skip(d + 1)));
                assert(rem.take(d) =~= seg);
                assert(rem.skip(d + 1) =~= p.skip(i as int + 1));
                assert(pieces.skip(nseg) =~= seq![seg] + split_sp(p.skip(i as int + 1)));
                assert(pieces[nseg] == pieces.skip(nseg)[0]);
                assert(pieces.skip(nseg + 1) =~= pieces.skip(nseg).skip(1));
                assert(pieces.skip(nseg + 1) =~= split_sp(p.skip(i as int + 1)));
                // The space byte sits on a character boundary, so the word
                // before it and the text after it are themselves UTF-8.
                vstd::utf8::is_char_boundary_iff_not_is_continuation_byte(rem, d);
                assert(!vstd::utf8::is_continuation_byte(rem[d]));
                vstd::utf8::valid_utf8_split(rem, d);
                assert(rem.subrange(0, d) =~= seg);
                assert(vstd::utf8::valid_utf8(seg));
                let after = rem.subrange(d, rem.len() as int);
                assert(vstd::utf8::valid_utf8(after));
                // The space itself is a one-byte scalar; dropping it keeps
                // the rest valid.
                assert(vstd::utf8::is_leading_byte_width_1(after[0]));
                assert(vstd::utf8::length_of_first_scalar(after) == 1);
                assert(vstd::utf8::valid_utf8(vstd::utf8::pop_first_scalar(after)));
                assert(vstd::utf8::pop_first_scalar(after) =~= p.skip(i as int + 1));
            }
            let seg_slice = vstd::slice::slice_subrange(bytes, seg_start, i);
            proof {
                assert(seg_slice@ =~= seg);
            }
            match crate::serial::utf8_to_str(seg_slice) {
                Some(s) => {
                    out.push(s.to_owned());
                },
                None => {
                    proof {
                        assert(false);
                    }
                },
            }
            seg_start = i + 1;
        }
        i = i + 1;
    }
    let ghost nseg = out@.len() as int;
    let ghost rem = p.skip(seg_start as int);
    proof {
        lemma_first_sp(rem);
        if first_sp(rem) >= 0 {
            assert(p[seg_start as int + first_sp(rem)] == 32);
            assert(false);
        }
        assert(split_sp(rem) == seq![rem]);
        assert(pieces.skip(nseg) =~= seq![rem]);
        assert(pieces.len() == nseg + 1);
        assert(pieces[nseg] == pieces.skip(nseg)[0]);
        assert(pieces[nseg] == rem);
    }
    let seg_slice = vstd::slice::slice_subrange(bytes, seg_start, n);
    proof {
        assert(seg_slice@ =~= rem);
    }
    match crate::serial::utf8_to_str(seg_slice) {
        Some(s) => {
            out.push(s.to_owned());
        },
        None => {
            proof {
                assert(false);
            }
        },
    }
    out
}

/// The `--args` flag pairs for a worker's argument words, in order.
pub open spec fn args_flags_spec(words: Seq<Seq<char>>) -> Seq<Seq<char>>
    decreases words.len(),
{
    if words.len() == 0 {
        Seq::empty()
    } else {
        seq!["--args"@, words[0]] + args_flags_spec(words.skip(1))
    }
}

proof fn lemma_args_flags_push(words: Seq<Seq<char>>, w: Seq<char>)
    ensures
        args_flags_spec(words.push(w)) == args_flags_spec(words) + seq!["--args"@, w],
    decreases words.len(),
{
    reveal_with_fuel(args_flags_spec, 3);
    if words.len() == 0 {
        assert(words.push(w).skip(1) =~= Seq::<Seq<char>>::empty());
        assert(args_flags_spec(words.push(w)) =~= args_flags_spec(words) + seq!["--args"@, w]);
    } else {
        assert(words.push(w).skip(1) =~= words.skip(1).push(w));
        lemma_args_flags_push(words.skip(1), w);
        assert(args_flags_spec(words.push(w)) =~= args_flags_spec(words) + seq!["--args"@, w]);
    }
}

/// The image builder's argument list: build the binary against the config
/// file, under the guest's address and image name, with one `--args` pair
/// for each word of the worker's argument line.
pub fn build_ops_args(
    binary_name: &str,
    config_file: &str,
    ip_text: &str,
    image_name: &str,
    extra_args: &Vec<String>,
) -> (r: Vec<String>)
    ensures
        r.deep_view() == seq![
            "build"@,
            binary_name@,
            "-c"@,
            config_file@,
            "--ip-address"@,
            ip_text@,
            "-i"@,
            image_name@,
        ] + args_flags_spec(extra_args.deep_view()),
{
    let mut r: Vec<String> = Vec::new();
    r.push("build".to_owned());
    r.push(binary_name.to_owned());
    r.push("-c".to_owned());
    r.push(config_file.to_owned());
    r.push("--ip-address".to_owned());
    r.push(ip_text.to_owned());
    r.push("-i".to_owned());
    r.push(image_name.to_owned());
    let ghost head = r.deep_view();
    let mut i: usize = 0;
    while i < extra_args.len()
        invariant
            0 <= i <= extra_args@.len(),
            head.len() == 8,
            r.deep_view() =~= head + args_flags_spec(extra_args.deep_view().take(i as int)),
        decreases extra_args@.len() - i,
    {
        let ghost prefix = extra_args.deep_view().take(i as int);
        let ghost old_deep = r.deep_view();
        r.push("--args".to_owned());
        r.push(extra_args[i].clone());
        proof {
            assert(r.deep_view() =~= old_deep + seq!["--args"@, extra_args.deep_view()[i as int]]);
            lemma_args_flags_push(prefix, extra_args.deep_view()[i as int]);
            assert(extra_args.deep_view().take(i as int + 1) =~= prefix.push(
                extra_args.deep_view()[i as int],
            ));
            assert(r.deep_view() =~= head + args_flags_spec(
                extra_args.deep_view().take(i as int + 1),
            ));
        }
        i = i + 1;
    }
    proof {
        assert(extra_args.deep_view().take(extra_args@.len() as int) =~= extra_args.deep_view());
        assert(head =~= seq![
            "build"@,
            binary_name@,
            "-c"@,
            config_file@,
            "--ip-address"@,
            ip_text@,
            "-i"@,
            image_name@,
        ]);
    }
    r
}

/// The path, under the guest's temporary directory, where the built image
/// is expected.
pub fn dest_image_path(temp_dir: &str, image_name: &str) -> (r: String)
    ensures
        r@ == temp_dir@ + "/"@ + ".ops/images"@ + "/"@ + image_name@,
{
    let dir = join_path(temp_dir, ".ops/images");
    join_path(dir.as_str(), image_name)
}

/// Assembles the launch configuration of a built unikernel image: one core,
/// a fixed small memory, no firmware.
pub fn assemble_launch_configuration(tap: TapUser, temp_dir: String, image_path: String) -> (r:
    LaunchConfiguration)
    ensures
        r.tap == tap,
        r.temp_dir@ == temp_dir@,
        r.image_path@ == image_path@,
        r.firmware@.len() == 0,
        r.num_cores == Some(1u64),
        r.memory_in_mega_bytes == Some(512u64),
{
    let firmware: Vec<QemuFirmwareConfig> = Vec::new();
    LaunchConfiguration {
        tap,
        image_path,
        temp_dir,
        firmware,
        num_cores: Some(1),
        memory_in_mega_bytes: Some(512),
    }
}

} // verus!
