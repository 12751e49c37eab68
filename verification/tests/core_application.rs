use cpp_to_rust_generator::core_application::CoreApplicationArgs;

#[test]
fn from_ends_each_argument_with_zero() {
    let mut args = CoreApplicationArgs::from(vec![
        b"app".to_vec(),
        b"--flag\0".to_vec(),
        Vec::new(),
        vec![0],
        vec![0, 1],
    ]);
    let (argc, values) = args.get();
    assert_eq!(*argc, 5);
    assert_eq!(
        *values,
        vec![b"app\0".to_vec(), b"--flag\0".to_vec(), vec![0], vec![0], vec![0, 1, 0]]
    );
}

#[test]
fn empty_has_no_arguments() {
    let mut args = CoreApplicationArgs::empty();
    let (argc, values) = args.get();
    assert_eq!(*argc, 0);
    assert!(values.is_empty());
}

#[test]
fn from_real_has_no_arguments() {
    let mut args = CoreApplicationArgs::from_real();
    let (argc, values) = args.get();
    assert_eq!(*argc, 0);
    assert!(values.is_empty());
}

#[test]
fn get_hands_out_what_the_object_holds() {
    let mut args = CoreApplicationArgs::from(vec![b"a".to_vec(), b"b".to_vec()]);
    {
        let (argc, values) = args.get();
        *argc = 1;
        values.pop();
    }
    let (argc, values) = args.get();
    assert_eq!(*argc, 1);
    assert_eq!(*values, vec![b"a\0".to_vec()]);
}
