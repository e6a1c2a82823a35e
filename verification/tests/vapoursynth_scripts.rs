use andean_condor::rescale::{ArtCNNModel, BorderHandling, DescaleMode, Doubler, RescaleBuilder, VSJETKernel, Waifu2xModel};
use andean_condor::resize::{ChromaLocation, ColorPrimaries, DitherType, MatrixCoefficients, Range, TransferCharacteristics};
use andean_condor::text_map::{lex_less, TextMap};
use andean_condor::vapoursynth::{Line, Outputs, VapourSynthScript};
use andean_condor::vs_plugins::{SelectEvery, VapourSynthPluginScript, RFS, SSIMULACRA2};

fn modules(entries: &[(&str, Option<&str>)]) -> TextMap<Option<String>> {
    let mut m = TextMap::new();
    for (name, alias) in entries {
        m.insert(name.to_string(), alias.map(|a| a.to_string()));
    }
    m
}

#[test]
fn default_script_text() {
    let script = VapourSynthScript::default();
    assert_eq!(script.to_string(), "from vapoursynth import core\n\n\n\n");
}

#[test]
fn script_with_lines_and_outputs() {
    let mut script = VapourSynthScript::default();
    script.add_lines(vec![
        Line::Comment("source".to_string()),
        Line::Expression("clip".to_string(), "core.bs.VideoSource(source = 'a.mkv')".to_string()),
        Line::TermWithComment("clip.set_output()".to_string(), "unused".to_string()),
        Line::ExpressionWithComment("clip".to_string(), "clip[0:10]".to_string(), "trim".to_string()),
        Line::Term("pass".to_string()),
    ]);
    let mut outputs = Outputs::new();
    outputs.insert(1, "alpha".to_string());
    outputs.insert(0, "clip".to_string());
    script.add_outputs(outputs);
    let expected = "from vapoursynth import core\n\n# source\nclip = core.bs.VideoSource(source = 'a.mkv')\nclip.set_output() # unused\nclip = clip[0:10] # trim\npass\n\nclip.set_output(index = 0)\nalpha.set_output(index = 1)\n\n";
    assert_eq!(script.to_string(), expected);
}

#[test]
fn imports_merge_and_sort() {
    let mut script = VapourSynthScript::default();
    let mut imports = TextMap::new();
    imports.insert("vapoursynth".to_string(), modules(&[("VideoNode", None), ("core", Some("c"))]));
    imports.insert("functools".to_string(), modules(&[("partial", None)]));
    script.add_imports(imports);
    assert_eq!(
        script.to_string(),
        "from functools import partial\nfrom vapoursynth import VideoNode, core as c\n\n\n\n"
    );
}

#[test]
fn outputs_replace_same_index() {
    let mut script = VapourSynthScript::default();
    let mut first = Outputs::new();
    first.insert(0, "a".to_string());
    script.add_outputs(first);
    let mut second = Outputs::new();
    second.insert(0, "b".to_string());
    second.insert(255, "c".to_string());
    script.add_outputs(second);
    assert_eq!(script.to_string(), "from vapoursynth import core\n\n\nb.set_output(index = 0)\nc.set_output(index = 255)\n\n");
}

#[test]
fn text_map_keeps_keys_sorted() {
    let mut m = TextMap::new();
    for k in ["b", "a", "ab", "B", "", "a"] {
        m.insert(k.to_string(), k.len());
    }
    assert_eq!(m.len(), 5);
    let keys: Vec<String> = (0..m.len()).map(|i| m.entry(i).0.clone()).collect();
    assert_eq!(keys, vec!["", "B", "a", "ab", "b"]);
    assert_eq!(m.get("ab"), Some(&2));
    assert_eq!(m.take("ab"), Some(2));
    assert_eq!(m.get("ab"), None);
    assert_eq!(m.take("zz"), None);
}

#[test]
fn lexicographic_order() {
    assert!(lex_less("a", "b"));
    assert!(lex_less("a", "ab"));
    assert!(!lex_less("ab", "a"));
    assert!(!lex_less("a", "a"));
    assert!(lex_less("", "a"));
    assert!(lex_less("Z", "a"));
}

#[test]
fn select_every_line() {
    let s = SelectEvery { cycle: 10, offsets: vec![0, 5], modify_duration: Some(false) };
    let (imports, lines) = s.generate_script("clip".to_string());
    assert!(imports.is_none());
    assert_eq!(lines.len(), 1);
    match &lines[0] {
        Line::Expression(name, value) => {
            assert_eq!(name, "clip");
            assert_eq!(value, "core.std.SelectEvery(clip = clip, cycle = 10, offsets = [0, 5], modify_duration = 0)");
        },
        _ => panic!("expected an expression"),
    }
}

#[test]
fn rfs_and_ssimulacra2_lines() {
    let r = RFS {
        clip_a_name: "a".to_string(),
        frames: vec![1, 2, 3],
        clip_b_name: "b".to_string(),
        planes: Some(vec![0]),
        mismatch: Some(true),
    };
    let (_, lines) = r.generate_script("out".to_string());
    match &lines[0] {
        Line::Expression(_, v) => assert_eq!(v, "core.vszip.RFS(clipa = a, clipb = b, frames = [1, 2, 3], planes = [0], mismatch = 1)"),
        _ => panic!("expected an expression"),
    }
    let plain = RFS { clip_a_name: "a".to_string(), frames: vec![], clip_b_name: "b".to_string(), planes: None, mismatch: None };
    match &plain.generate_script("o".to_string()).1[0] {
        Line::Expression(_, v) => assert_eq!(v, "core.vszip.RFS(clipa = a, clipb = b, frames = [])"),
        _ => panic!("expected an expression"),
    }
    let s = SSIMULACRA2 { reference_node_name: "ref".to_string(), distorted_node_name: "dist".to_string() };
    match &s.generate_script("score".to_string()).1[0] {
        Line::Expression(n, v) => {
            assert_eq!(n, "score");
            assert_eq!(v, "core.vszip.SSIMULACRA2(reference = ref, distorted = dist)");
        },
        _ => panic!("expected an expression"),
    }
}

#[test]
fn colour_codes() {
    assert_eq!(MatrixCoefficients::BT709.as_int(), 1);
    assert_eq!(MatrixCoefficients::YCgCoRo.as_int(), 17);
    assert_eq!(TransferCharacteristics::ST2084.as_int(), 14);
    assert_eq!(ColorPrimaries::JedecP22.as_int(), 22);
    assert_eq!(Range::Full.as_int(), 1);
    assert_eq!(ChromaLocation::BottomLeft.as_int(), 4);
    assert_eq!(DitherType::ErrorDiffusion.name(), "error_diffusion");
    assert_eq!(DitherType::NoDither.as_int(), 0);
}

#[test]
fn rescale_names_and_defaults() {
    assert_eq!(BorderHandling::default(), BorderHandling::Mirror);
    assert_eq!(BorderHandling::Repeat.name(), "REPEAT");
    assert_eq!(DescaleMode::default().name(), "hw");
    assert_eq!(Doubler::default(), Doubler::ArtCNN(ArtCNNModel::R8F64));
    assert_eq!(Doubler::Waifu2x(Waifu2xModel::Photo).name(), "Waifu2x");
    assert_eq!(ArtCNNModel::R16F96Chroma.name(), "R16F96_Chroma");
    assert_eq!(Waifu2xModel::default().name(), "Cunet");
    assert_eq!(Waifu2xModel::SwinUnetPhotoV2.name(), "SwimUnetPhotoV2");
}

fn module_names(m: &TextMap<Option<String>>) -> Vec<String> {
    (0..m.len()).map(|i| m.entry(i).0.clone()).collect()
}

#[test]
fn kernel_calls_and_modules() {
    let (modules, command) = RescaleBuilder::kernel_details(&VSJETKernel::default());
    assert_eq!(module_names(&modules), vec!["Bicubic".to_string(), "BorderHandling".to_string()]);
    assert_eq!(command, "Bicubic(b = 0, c = 0.5, linear = False, border_handling = BorderHandling.MIRROR)");
    let (_, command) = RescaleBuilder::kernel_details(&VSJETKernel::Hermite { linear: true, border_handling: BorderHandling::Zero });
    assert_eq!(command, "Hermite(linear = True, border_handling = BorderHandling.ZERO)");
    let auto = VSJETKernel::BicubicAuto { b: Some("0.2".to_string()), c: None, linear: false, border_handling: BorderHandling::Repeat };
    let (_, command) = RescaleBuilder::kernel_details(&auto);
    assert_eq!(command, "BicubicAuto(b = 0.2, linear = False, border_handling = BorderHandling.REPEAT)");
    let auto_c = VSJETKernel::BicubicAuto { b: None, c: Some("0.4".to_string()), linear: true, border_handling: BorderHandling::Mirror };
    let (_, command) = RescaleBuilder::kernel_details(&auto_c);
    assert_eq!(command, "BicubicAuto(c = 0.4, linear = True, border_handling = BorderHandling.MIRROR)");
    let lanczos = VSJETKernel::Lanczos { taps: Some(4), linear: false, border_handling: BorderHandling::Mirror };
    let (modules, command) = RescaleBuilder::kernel_details(&lanczos);
    assert_eq!(module_names(&modules), vec!["BorderHandling".to_string(), "Lanczos".to_string()]);
    assert_eq!(command, "Lanczos(taps = 4, linear = False, border_handling = BorderHandling.MIRROR)");
    let both = VSJETKernel::BicubicAuto { b: Some("0.2".to_string()), c: Some("0.4".to_string()), linear: false, border_handling: BorderHandling::Mirror };
    let (_, command) = RescaleBuilder::kernel_details(&both);
    assert_eq!(command, "BicubicAuto(b = 0.2, c = 0.4, linear = False, border_handling = BorderHandling.MIRROR)");
    let three = VSJETKernel::Lanczos { taps: Some(3), linear: false, border_handling: BorderHandling::Mirror };
    let (modules, command) = RescaleBuilder::kernel_details(&three);
    assert_eq!(module_names(&modules), vec!["BorderHandling".to_string(), "Lanczos".to_string()]);
    assert_eq!(command, "Lanczos(taps = 3, linear = False, border_handling = BorderHandling.MIRROR)");
    let (_, command) = RescaleBuilder::kernel_details(&VSJETKernel::Lanczos { taps: None, linear: true, border_handling: BorderHandling::Zero });
    assert_eq!(command, "Lanczos(linear = True, border_handling = BorderHandling.ZERO)");
}

#[test]
fn doubler_argument_and_module() {
    let (modules, argument) = RescaleBuilder::doubler_details(&Doubler::Waifu2x(Waifu2xModel::SwinUnetArt));
    assert_eq!(module_names(&modules), vec!["Waifu2x".to_string()]);
    assert_eq!(argument, "Waifu2x.SwimUnetArt");
    let (_, argument) = RescaleBuilder::doubler_details(&Doubler::ArtCNN(ArtCNNModel::C4F32));
    assert_eq!(argument, "ArtCNN.C4F32");
}

#[test]
fn rescale() {
    let builder = RescaleBuilder {
        width: "1280".to_string(),
        height: "720".to_string(),
        base_width: None,
        base_height: None,
        descale_kernel: VSJETKernel::Bilinear { linear: false, border_handling: BorderHandling::Repeat },
        doubler: Doubler::ArtCNN(ArtCNNModel::C4F32),
        downscale_kernel: VSJETKernel::Hermite { linear: true, border_handling: BorderHandling::Mirror },
        mode: None,
    };
    let (imports, lines) = builder.generate_script("clip".to_string());
    let imports = imports.expect("the chain imports its modules");
    let mut script = VapourSynthScript::default();
    script.add_imports(imports);
    script.add_lines(lines);
    let mut outputs = Outputs::new();
    outputs.insert(0, "clip".to_string());
    script.add_outputs(outputs);
    let expected = "from vapoursynth import core\n\
from vodesfunc import RescaleBuilder\n\
from vskernels import Bilinear, BorderHandling, Hermite\n\
from vsscale import ArtCNN\n\n\
rescale_builder = RescaleBuilder(clip)\n\
rescale_builder = rescale_builder.descale(kernel = Bilinear(linear = False, border_handling = BorderHandling.REPEAT), width = 1280, height = 720)\n\
rescale_builder = rescale_builder.double(ArtCNN.C4F32)\n\
rescale_builder = rescale_builder.errormask()\n\
rescale_builder = rescale_builder.linemask()\n\
rescale_builder = rescale_builder.downscale(downscaler = Hermite(linear = True, border_handling = BorderHandling.MIRROR))\n\
rescale_builder_final = rescale_builder.final()\n\
rescale_builder = rescale_builder_final[0]\n\
clip = rescale_builder_final[1]\n\n\
clip.set_output(index = 0)\n\n";
    assert_eq!(script.to_string(), expected);
}

#[test]
fn rescale_descale_arguments() {
    let mut builder = RescaleBuilder::default();
    builder.base_width = Some(1282);
    builder.base_height = Some(722);
    builder.width = "1280.5".to_string();
    let (_, lines) = builder.generate_script("src".to_string());
    assert_eq!(lines.len(), 9);
    match &lines[1] {
        Line::Expression(name, value) => {
            assert_eq!(name, "rescale_builder");
            assert_eq!(
                value,
                "rescale_builder.descale(kernel = Bilinear(linear = False, border_handling = BorderHandling.MIRROR), base_width = 1282, base_height = 722, width = 1280.5, height = 720, mode = hw)"
            );
        },
        _ => panic!("the descale step is an assignment"),
    }
    match &lines[8] {
        Line::Expression(name, value) => {
            assert_eq!(name, "src");
            assert_eq!(value, "rescale_builder_final[1]");
        },
        _ => panic!("the last line assigns the clip"),
    }
}

#[test]
fn default_rescale() {
    let kernel = VSJETKernel::Bilinear { linear: false, border_handling: BorderHandling::Mirror };
    let text = format!("{}(border_handling = BorderHandling.{})", kernel.name(), BorderHandling::Mirror.name());
    assert_eq!(text, "Bilinear(border_handling = BorderHandling.MIRROR)");
}

#[test]
fn outputs_come_in_index_order() {
    let mut outputs = Outputs::new();
    outputs.insert(7, "late".to_string());
    outputs.insert(2, "early".to_string());
    outputs.insert(7, "later".to_string());
    let mut more = Outputs::new();
    more.insert(5, "middle".to_string());
    more.insert(2, "first".to_string());
    outputs.extend(more);
    assert_eq!(
        outputs.in_order(),
        vec![(2, "first".to_string()), (5, "middle".to_string()), (7, "later".to_string())]
    );
}
