use viperserver::opts::{CarbonOpts, SiliconOpts, SiliconOptsBuilder, ViperServerOpts};
use viperserver::server::ViperServer;
use viperserver::VerificationRequest;

fn applied_server(opts: &ViperServerOpts) -> Vec<String> {
    let mut args: Vec<String> = Vec::new();
    opts.apply(&mut args);
    args
}

#[test]
fn no_option_gives_no_argument() {
    let opts = ViperServerOpts::default();
    assert!(applied_server(&opts).is_empty());
    assert_eq!(opts.to_string(), "");
    let mut args: Vec<String> = Vec::new();
    CarbonOpts::default().apply(&mut args);
    SiliconOpts::default().apply(&mut args);
    assert!(args.is_empty());
}

#[test]
fn switches_and_values_come_in_field_order() {
    let mut builder = ViperServer::builder();
    builder.single_client(true).port("1234").log_level("ALL").backend_specific_cache(true);
    let opts = builder.build().unwrap();
    assert_eq!(
        applied_server(&opts),
        vec!["--backendSpecificCache", "--logLevel", "ALL", "--port", "1234", "--singleClient"]
    );
    assert_eq!(
        opts.to_string(),
        "--backendSpecificCache --logLevel ALL --port 1234 --singleClient "
    );
}

#[test]
fn a_switch_that_is_off_gives_no_argument() {
    let mut builder = ViperServer::builder();
    builder.disable_version_check(false).cache_file("c.bin");
    let opts = builder.build().unwrap();
    assert_eq!(opts.disable_version_check, Some(false));
    assert_eq!(applied_server(&opts), vec!["--cacheFile", "c.bin"]);
    assert_eq!(opts.to_string(), "--cacheFile c.bin ");
}

#[test]
fn apply_appends_to_what_is_there() {
    let mut builder = ViperServer::builder();
    builder.n_threads("4");
    let opts = builder.build().unwrap();
    let mut args = vec!["java".to_string()];
    opts.apply(&mut args);
    assert_eq!(args, vec!["java", "--nThreads", "4"]);
}

#[test]
fn carbon_options_in_order() {
    let mut builder = VerificationRequest::carbon();
    builder.z3_exe("/bin/z3").boogie_exe("/bin/boogie").assume_injectivity_on_inhale(true);
    let opts = builder.build().unwrap();
    let mut args: Vec<String> = Vec::new();
    opts.apply(&mut args);
    assert_eq!(
        args,
        vec!["--assumeInjectivityOnInhale", "--boogieExe", "/bin/boogie", "--z3Exe", "/bin/z3"]
    );
    assert_eq!(
        opts.to_string(),
        "--assumeInjectivityOnInhale --boogieExe /bin/boogie --z3Exe /bin/z3 "
    );
}

#[test]
fn silicon_options_first_and_last_field() {
    let mut builder = VerificationRequest::silicon();
    builder
        .z3_saturation_timeout_weights("1 2")
        .alternative_function_verification_order(true)
        .timeout("10")
        .print_method_cf_gs(true)
        .disable_isc_triggers(true);
    let opts = builder.build().unwrap();
    let mut args: Vec<String> = Vec::new();
    opts.apply(&mut args);
    assert_eq!(
        args,
        vec![
            "--alternativeFunctionVerificationOrder",
            "--disableISCTriggers",
            "--printMethodCFGs",
            "--timeout",
            "10",
            "--z3SaturationTimeoutWeights",
            "1 2"
        ]
    );
}

#[test]
fn a_later_setting_replaces_an_earlier_one() {
    let mut builder = SiliconOptsBuilder::default();
    builder.timeout("10").timeout("20");
    let opts = builder.build().unwrap();
    assert_eq!(opts.timeout.as_deref(), Some("20"));
    assert_eq!(opts.to_string(), "--timeout 20 ");
}

#[test]
fn building_leaves_the_builder_as_it_is() {
    let mut builder = SiliconOptsBuilder::default();
    builder.prover("Z3");
    let first = builder.build().unwrap();
    let second = builder.clone().build().unwrap();
    assert_eq!(first.to_string(), "--prover Z3 ");
    assert_eq!(second.to_string(), "--prover Z3 ");
    assert_eq!(first.clone().to_string(), first.to_string());
}
