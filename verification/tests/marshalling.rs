use ruru::any_object::AnyObject;
use ruru::closure::{box_create, trampoline, ClosureBody, ClosureScript};
use ruru::host::Host;
use ruru::marshal::{decode, encode};
use ruru::types::Value;

fn handles(bits: &[usize]) -> Vec<AnyObject> {
    bits.iter().map(|b| AnyObject::from(Value { bits: *b })).collect()
}

#[test]
fn encode_then_decode_reproduces_arguments() {
    let args = handles(&[7, 3, 99, 3]);
    let (argc, argv) = encode(&args);
    assert_eq!(argc, 4);
    let back = decode(argc, &argv);
    assert_eq!(back, args);
}

#[test]
fn encode_empty_sequence() {
    let args: Vec<AnyObject> = Vec::new();
    let (argc, argv) = encode(&args);
    assert_eq!(argc, 0);
    assert_eq!(argv.len(), 0);
    let back = decode(argc, &argv);
    assert!(back.is_empty());
}

#[test]
fn decode_reads_exactly_argc_entries() {
    let buf = vec![Value { bits: 10 }, Value { bits: 11 }, Value { bits: 12 }];
    let back = decode(2, &buf);
    assert_eq!(back, handles(&[10, 11]));
}

#[test]
fn encode_preserves_order() {
    let args = handles(&[5, 4, 3, 2, 1]);
    let (argc, argv) = encode(&args);
    assert_eq!(argc, 5);
    for (i, v) in argv.iter().enumerate() {
        assert_eq!(v.bits, 5 - i);
    }
}

#[test]
fn trampoline_picks_the_requested_argument() {
    let mut host = Host::new();
    let script = ClosureScript { yields: vec![], body: ClosureBody::Arg(0) };
    let box_ptr = box_create(&mut host, script);
    let a = Value { bits: 21 };
    let b = Value { bits: 22 };
    let argv = vec![a, b];
    let recv = Value { bits: 0 };
    assert_eq!(trampoline(&host, recv, 2, &argv, box_ptr), a);
    // with a count of zero the closure sees no arguments and gets nil back
    assert_eq!(trampoline(&host, recv, 0, &argv, box_ptr), Value { bits: 0 });
}

#[test]
fn trampoline_returns_fixed_result_untouched() {
    let mut host = Host::new();
    let fixed = Value { bits: 77 };
    let script = ClosureScript { yields: vec![], body: ClosureBody::Fixed(fixed) };
    let box_ptr = box_create(&mut host, script);
    let argv: Vec<Value> = Vec::new();
    assert_eq!(trampoline(&host, Value { bits: 0 }, 0, &argv, box_ptr), fixed);
}
