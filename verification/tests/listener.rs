use psy_lines_backend::listener::{bind_address, PORT};

#[test]
fn listens_on_every_interface() {
    assert_eq!(bind_address().octets, [0, 0, 0, 0]);
}

#[test]
fn listens_on_port_8080() {
    assert_eq!(bind_address().port, 8080);
    assert_eq!(PORT, 8080);
}

#[test]
fn bind_address_is_fixed() {
    let first = bind_address();
    let second = bind_address();
    assert_eq!(first.octets, second.octets);
    assert_eq!(first.port, second.port);
}
