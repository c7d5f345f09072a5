use natpmp::Error;

#[test]
fn every_error_has_its_message() {
    let expected = [
        (Error::NATPMP_ERR_INVALIDARGS, "invalid arguments"),
        (Error::NATPMP_ERR_SOCKETERROR, "socket failed"),
        (Error::NATPMP_ERR_CANNOTGETGATEWAY, "cannot get default gateway ip address"),
        (Error::NATPMP_ERR_CLOSEERR, "close failed"),
        (Error::NATPMP_ERR_RECVFROM, "recvfrom failed"),
        (Error::NATPMP_ERR_NOPENDINGREQ, "no pending request"),
        (Error::NATPMP_ERR_NOGATEWAYSUPPORT, "the gateway does not support nat-pmp"),
        (Error::NATPMP_ERR_CONNECTERR, "connect failed"),
        (Error::NATPMP_ERR_WRONGPACKETSOURCE, "packet not received from the gateway"),
        (Error::NATPMP_ERR_SENDERR, "send failed"),
        (Error::NATPMP_ERR_FCNTLERROR, "fcntl failed"),
        (Error::NATPMP_ERR_GETTIMEOFDAYERR, "get time failed"),
        (Error::NATPMP_ERR_UNSUPPORTEDVERSION, "unsupported nat-pmp version error from server"),
        (Error::NATPMP_ERR_UNSUPPORTEDOPCODE, "unsupported nat-pmp opcode error from server"),
        (Error::NATPMP_ERR_UNDEFINEDERROR, "undefined nat-pmp server error"),
        (Error::NATPMP_ERR_NOTAUTHORIZED, "not authorized"),
        (Error::NATPMP_ERR_NETWORKFAILURE, "network failure"),
        (Error::NATPMP_ERR_OUTOFRESOURCES, "nat-pmp server out of resources"),
        (Error::NATPMP_TRYAGAIN, "try again"),
    ];
    for (error, message) in expected {
        assert_eq!(error.message(), message);
    }
}

#[test]
fn errors_compare_and_copy() {
    let error = Error::NATPMP_TRYAGAIN;
    let copy = error;
    assert_eq!(error, copy);
    assert_ne!(error, Error::NATPMP_ERR_SENDERR);
    assert_eq!(format!("{:?}", error), "NATPMP_TRYAGAIN");
}
