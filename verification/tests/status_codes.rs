use freertos_rt::errors::{
    EspError, Error, FreeRtosStatus, ERR_COULD_NOT_ALLOCATE_REQUIRED_MEMORY, ESP_OK, PD_FAIL,
    PD_PASS,
};

#[test]
fn create_status_mapping() {
    assert_eq!(FreeRtosStatus(PD_PASS).into_create_result(), Ok(()));
    assert_eq!(
        FreeRtosStatus(ERR_COULD_NOT_ALLOCATE_REQUIRED_MEMORY).into_create_result(),
        Err(Error::OutOfMemory)
    );
    assert_eq!(FreeRtosStatus(PD_FAIL).into_create_result(), Err(Error::OutOfMemory));
}

#[test]
fn notify_status_mapping() {
    assert_eq!(FreeRtosStatus(PD_PASS).into_notify_result(), Ok(()));
    assert_eq!(
        FreeRtosStatus(PD_FAIL).into_notify_result(),
        Err(Error::NotificationPending)
    );
}

#[test]
fn wait_status_mapping() {
    assert_eq!(FreeRtosStatus(PD_PASS).into_wait_result(42), Ok(42));
    assert_eq!(FreeRtosStatus(PD_FAIL).into_wait_result(5), Err(Error::Timeout));
}

#[test]
fn esp_status_mapping() {
    assert_eq!(EspError(ESP_OK).into_result(), Ok(()));
    assert_eq!(EspError(-1).into_result(), Err(EspError(-1)));
    assert_eq!(EspError(0x3001).into_result(), Err(EspError(0x3001)));
}
